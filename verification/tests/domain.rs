use fast_marketplace::application::error::UseCasesError;
use fast_marketplace::domain::error::DomainError;
use fast_marketplace::domain::models::property::{Category, Model};
use fast_marketplace::domain::models::vehicle::{
    BodyStyle, Category as VehicleCategory, Condition, Fuel, Manufacturer,
};
use fast_marketplace::domain::property::{Property, PropertyXPath};
use fast_marketplace::domain::vehicle::{Vehicle, VehicleXPath};
use fast_marketplace::text::{decimal_string, str_contains, str_eq};

#[test]
fn property_labels() {
    assert_eq!(Category::Apartment.transform(), "Apartamento");
    assert_eq!(Category::House.transform(), "Casa");
    assert_eq!(Model::Sale.transform(), "À venda");
    assert_eq!(Model::Rent.transform(), "Aluguel");
}

#[test]
fn vehicle_labels() {
    assert_eq!(BodyStyle::Coupe.transform(), "Cupê");
    assert_eq!(BodyStyle::Pickup.transform(), "Picape");
    assert_eq!(BodyStyle::Sedan.transform(), "Sedã");
    assert_eq!(BodyStyle::Hatchback.transform(), "Hatch");
    assert_eq!(BodyStyle::Suv.transform(), "SUV");
    assert_eq!(BodyStyle::Convertible.transform(), "Conversível");
    assert_eq!(BodyStyle::StationWagon.transform(), "Station wagon");
    assert_eq!(BodyStyle::Minivan.transform(), "Minivan");
    assert_eq!(BodyStyle::CompactCar.transform(), "Carro compacto");
    assert_eq!(BodyStyle::Other.transform(), "Outro");
    assert_eq!(VehicleCategory::CarOrPickup.transform(), "Carro/picape");
    assert_eq!(VehicleCategory::Motorcycle.transform(), "Motocicleta");
    assert_eq!(VehicleCategory::SportsVehicle.transform(), "Veículos para esportes");
    assert_eq!(VehicleCategory::Trailer.transform(), "Trailer");
    assert_eq!(VehicleCategory::UtilityTrailer.transform(), "Reboque");
    assert_eq!(VehicleCategory::Boat.transform(), "Barco");
    assert_eq!(VehicleCategory::CommercialOrIndustrial.transform(), "Comercial/industrial");
    assert_eq!(VehicleCategory::Other.transform(), "Outro");
    assert_eq!(Condition::Excellent.transform(), "Excelente");
    assert_eq!(Condition::VeryGood.transform(), "Muito bom");
    assert_eq!(Condition::Good.transform(), "Bom");
    assert_eq!(Condition::Fair.transform(), "Razoável");
    assert_eq!(Condition::Poor.transform(), "Ruim");
    assert_eq!(Fuel::Diesel.transform(), "Diesel");
    assert_eq!(Fuel::Electric.transform(), "Elétrico");
    assert_eq!(Fuel::Gasoline.transform(), "Gasolina");
    assert_eq!(Fuel::Flex.transform(), "Flex");
    assert_eq!(Fuel::Hybrid.transform(), "Híbrido");
    assert_eq!(Fuel::PlugInHybrid.transform(), "Híbrido plug-in");
    assert_eq!(Fuel::Other.transform(), "Outro");
    assert_eq!(Manufacturer::Adly.transform(), "Adly");
}

#[test]
fn property_keeps_its_fields() {
    let mut p = Property::new(
        vec!["a".to_string(), "b".to_string()],
        Model::Rent,
        Category::Apartment,
        3,
        1,
        2500,
        "Rua A".to_string(),
        "Perto do metrô".to_string(),
        70,
        120,
        450,
        1,
    );
    assert_eq!(p.image(), &vec!["a".to_string(), "b".to_string()]);
    assert_eq!(*p.model(), Model::Rent);
    assert_eq!(*p.category(), Category::Apartment);
    assert_eq!(p.bedroom(), 3);
    assert_eq!(p.bathroom(), 1);
    assert_eq!(p.price(), 2500);
    assert_eq!(p.address(), "Rua A");
    assert_eq!(p.description(), "Perto do metrô");
    assert_eq!(p.meter(), 70);
    assert_eq!(p.tax(), 120);
    assert_eq!(p.condominium(), 450);
    assert_eq!(p.parking(), 1);
    p.set_image(vec!["c".to_string()]);
    assert_eq!(p.image(), &vec!["c".to_string()]);
    assert_eq!(p.price(), 2500);
}

#[test]
fn vehicle_keeps_its_fields() {
    let mut v = Vehicle::new(
        VehicleCategory::Boat,
        vec!["x".to_string()],
        "Porto".to_string(),
        1999,
        Manufacturer::Adly,
        "Lancha".to_string(),
        0,
        BodyStyle::Other,
        50000,
        Condition::Good,
        Fuel::Diesel,
        "Bem conservada".to_string(),
    );
    assert_eq!(*v.category(), VehicleCategory::Boat);
    assert_eq!(v.image(), &vec!["x".to_string()]);
    assert_eq!(v.address(), "Porto");
    assert_eq!(v.year(), 1999);
    assert_eq!(*v.manufacturer(), Manufacturer::Adly);
    assert_eq!(v.model(), "Lancha");
    assert_eq!(v.mileage(), 0);
    assert_eq!(*v.bodystyle(), BodyStyle::Other);
    assert_eq!(v.price(), 50000);
    assert_eq!(*v.condition(), Condition::Good);
    assert_eq!(*v.fuel(), Fuel::Diesel);
    assert_eq!(v.description(), "Bem conservada");
    v.set_image(Vec::new());
    assert!(v.image().is_empty());
    assert_eq!(v.year(), 1999);
}

#[test]
fn xpath_holders_keep_their_fields() {
    let s = |t: &str| t.to_string();
    let p = PropertyXPath::new(
        s("i"), s("mo"), s("c"), s("be"), s("ba"), s("p"), s("a"), s("d"), s("me"), s("t"),
        s("co"), s("pa"),
    );
    assert_eq!(p.image, "i");
    assert_eq!(p.model, "mo");
    assert_eq!(p.parking, "pa");
    let v = VehicleXPath::new(
        s("c"), s("i"), s("a"), s("y"), s("ma"), s("mo"), s("mi"), s("b"), s("p"), s("co"),
        s("f"), s("d"),
    );
    assert_eq!(v.category, "c");
    assert_eq!(v.manufacturer, "ma");
    assert_eq!(v.description, "d");
}

#[test]
fn error_texts() {
    assert_eq!(DomainError::InvalidInput.to_string(), "The provided input data is invalid");
    assert_eq!(DomainError::MissingField.to_string(), "A required field is missing");
    assert_eq!(DomainError::RuleViolation.to_string(), "A business rule was violated");
    assert_eq!(DomainError::NotFound.to_string(), "The requested resource was not found");
    assert_eq!(DomainError::AlreadyExists.to_string(), "The resource already exists");
    assert_eq!(
        DomainError::LimitReached.to_string(),
        "The maximum allowed limit has been reached"
    );
    assert_eq!(
        DomainError::AutomationError("abrir a página".to_string()).to_string(),
        "Automation failed at step: abrir a página"
    );
    assert_eq!(UseCasesError::DatabaseError.to_string(), "Database operation failed");
    assert_eq!(
        UseCasesError::ExternalServiceError.to_string(),
        "External service communication failed"
    );
    assert_eq!(
        UseCasesError::Unauthorized.to_string(),
        "Authentication is required and failed or has not yet been provided"
    );
    assert_eq!(
        UseCasesError::Forbidden.to_string(),
        "The request was valid, but the server is refusing action"
    );
    assert_eq!(
        UseCasesError::InternalError.to_string(),
        "An unexpected internal server error occurred"
    );
    // A domain failure keeps its own text.
    assert_eq!(
        UseCasesError::Domain(DomainError::NotFound).to_string(),
        "The requested resource was not found"
    );
}

#[test]
fn domain_failure_converts_into_use_case_failure() {
    let e: UseCasesError = DomainError::AlreadyExists.into();
    assert!(matches!(e, UseCasesError::Domain(DomainError::AlreadyExists)));
}

#[test]
fn text_helpers() {
    assert_eq!(decimal_string(0), "0");
    assert_eq!(decimal_string(7), "7");
    assert_eq!(decimal_string(1000000), "1000000");
    assert_eq!(decimal_string(u64::MAX), u64::MAX.to_string());
    assert!(str_eq("ação", "ação"));
    assert!(!str_eq("ação", "acao"));
    assert!(!str_eq("ab", "abc"));
    assert!(str_contains("https://x/login?y", "login"));
    assert!(str_contains("abc", ""));
    assert!(!str_contains("log", "login"));
    assert!(str_contains("ação", "ção"));
}

#[test]
fn labels_name_one_choice_each() {
    let bodies = [
        BodyStyle::Coupe, BodyStyle::Pickup, BodyStyle::Sedan, BodyStyle::Hatchback,
        BodyStyle::Suv, BodyStyle::Convertible, BodyStyle::StationWagon, BodyStyle::Minivan,
        BodyStyle::CompactCar, BodyStyle::Other,
    ];
    let labels: std::collections::HashSet<&str> = bodies.iter().map(|b| b.transform()).collect();
    assert_eq!(labels.len(), bodies.len());
    let categories = [
        VehicleCategory::CarOrPickup, VehicleCategory::Motorcycle, VehicleCategory::SportsVehicle,
        VehicleCategory::Trailer, VehicleCategory::UtilityTrailer, VehicleCategory::Boat,
        VehicleCategory::CommercialOrIndustrial, VehicleCategory::Other,
    ];
    let labels: std::collections::HashSet<&str> = categories.iter().map(|c| c.transform()).collect();
    assert_eq!(labels.len(), categories.len());
    assert_ne!(Model::Sale.transform(), Model::Rent.transform());
    assert_ne!(Category::House.transform(), Category::Apartment.transform());
}
