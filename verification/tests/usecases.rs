use std::sync::Arc;

use fast_marketplace::application::error::UseCasesError;
use fast_marketplace::application::usecases::{
    advance_publication, AddPropertyUseCase, AddVehicleUseCase, GetMarketplaceUseCase,
    PublishAction, PublishEvent, PublishFlow, RenewListingsUseCase, SignInMarketplaceUseCase,
    SignOutMarketplaceUseCase,
};
use fast_marketplace::domain::error::DomainError;
use fast_marketplace::domain::models::property::{Category, Model};
use fast_marketplace::domain::models::vehicle::{
    BodyStyle, Category as VehicleCategory, Condition, Fuel, Manufacturer,
};
use fast_marketplace::domain::property::Property;
use fast_marketplace::domain::vehicle::Vehicle;

/// An image repository that keeps the photos in memory and hands back their
/// locations unchanged.
struct InMemoryImageRepository {
    storage: std::sync::Mutex<Vec<String>>,
}

impl InMemoryImageRepository {
    fn new() -> Self {
        Self { storage: std::sync::Mutex::new(Vec::new()) }
    }

    fn add(&self, body: Vec<String>) -> Vec<String> {
        self.storage.lock().unwrap().extend(body.clone());
        body
    }

    fn remove(&self) {
        self.storage.lock().unwrap().clear();
    }
}

/// A marketplace that records what it is asked to publish.
struct InMemoryMarketplace {
    properties: std::sync::Mutex<Vec<Property>>,
    vehicles: std::sync::Mutex<Vec<Vehicle>>,
}

impl InMemoryMarketplace {
    fn new() -> Self {
        Self {
            properties: std::sync::Mutex::new(Vec::new()),
            vehicles: std::sync::Mutex::new(Vec::new()),
        }
    }
}

/// Runs a property publication against the in-memory services.
fn run_property(
    usecase: &AddPropertyUseCase<InMemoryImageRepository, InMemoryMarketplace>,
    client_id: String,
    property: Property,
    refuse: Option<DomainError>,
) -> Result<(), UseCasesError> {
    let (mut flow, mut action) = usecase.start(client_id, property);
    loop {
        let event = match action {
            PublishAction::StorePhotos(urls) => {
                PublishEvent::PhotosStored(usecase.image_repository().add(urls))
            }
            PublishAction::Publish { listing, client_id: _ } => {
                usecase.webscraping_marketplace_service().properties.lock().unwrap().push(listing);
                PublishEvent::Published(match &refuse {
                    None => Ok(()),
                    Some(e) => Err(e.clone()),
                })
            }
            PublishAction::RemovePhotos => {
                usecase.image_repository().remove();
                PublishEvent::PhotosRemoved
            }
            PublishAction::Finish(answer) => return answer,
        };
        let (next, next_action) = advance_publication(flow, event);
        flow = next;
        action = next_action;
    }
}

fn run_vehicle(
    usecase: &AddVehicleUseCase<InMemoryImageRepository, InMemoryMarketplace>,
    client_id: String,
    vehicle: Vehicle,
) -> Result<(), UseCasesError> {
    let (mut flow, mut action) = usecase.start(client_id, vehicle);
    loop {
        let event = match action {
            PublishAction::StorePhotos(urls) => {
                PublishEvent::PhotosStored(usecase.image_repository().add(urls))
            }
            PublishAction::Publish { listing, client_id: _ } => {
                usecase.webscraping_marketplace_service().vehicles.lock().unwrap().push(listing);
                PublishEvent::Published(Ok(()))
            }
            PublishAction::RemovePhotos => {
                usecase.image_repository().remove();
                PublishEvent::PhotosRemoved
            }
            PublishAction::Finish(answer) => return answer,
        };
        let (next, next_action) = advance_publication(flow, event);
        flow = next;
        action = next_action;
    }
}

fn sample_property() -> Property {
    Property::new(
        vec!["http://example.com/image/1".to_string()],
        Model::Sale,
        Category::House,
        2,
        2,
        1000000,
        "A street example".to_string(),
        "An example description".to_string(),
        250,
        100,
        300,
        3,
    )
}

#[test]
fn add_property_success() {
    let image_repository = Arc::new(InMemoryImageRepository::new());
    let webscraping_marketplace_service = Arc::new(InMemoryMarketplace::new());

    let usecase = AddPropertyUseCase::new(image_repository, webscraping_marketplace_service);

    let client_id = "123".to_string();

    let image = vec!["http://example.com/image/1".to_string()];
    let model = Model::Sale;
    let category = Category::House;
    let bedroom = 2;
    let bathroom = 2;
    let price = 1000000;
    let address = "A street example".to_string();
    let description = "An example description".to_string();
    let meter = 250;
    let tax = 100;
    let condominium = 300;
    let parking = 3;

    let property = Property::new(
        image,
        model,
        category,
        bedroom,
        bathroom,
        price,
        address,
        description,
        meter,
        tax,
        condominium,
        parking,
    );

    let response = run_property(&usecase, client_id, property, None);

    assert!(response.is_ok());
}

#[test]
fn add_vehicle_success() {
    let image_repository = Arc::new(InMemoryImageRepository::new());
    let webscraping_marketplace_service = Arc::new(InMemoryMarketplace::new());

    let usecase = AddVehicleUseCase::new(image_repository, webscraping_marketplace_service);

    let client_id = "123".to_string();

    let category = VehicleCategory::CarOrPickup;
    let image = vec!["https://example.com/image/1".to_string()];
    let address = "A street example".to_string();
    let year = 2025;
    let manufacturer = Manufacturer::Adly;
    let model = "".to_string();
    let mileage = 1000;
    let bodystyle = BodyStyle::CompactCar;
    let price = 100000;
    let condition = Condition::Excellent;
    let fuel = Fuel::Flex;
    let description = "An example description".to_string();

    let vehicle = Vehicle::new(
        category,
        image,
        address,
        year,
        manufacturer,
        model,
        mileage,
        bodystyle,
        price,
        condition,
        fuel,
        description,
    );

    let response = run_vehicle(&usecase, client_id, vehicle);

    assert!(response.is_ok());
}

#[test]
fn published_listing_carries_stored_photos() {
    let usecase = AddPropertyUseCase::new(
        Arc::new(InMemoryImageRepository::new()),
        Arc::new(InMemoryMarketplace::new()),
    );
    let (flow, action) = usecase.start("client".to_string(), sample_property());
    match &action {
        PublishAction::StorePhotos(urls) => {
            assert_eq!(urls, &vec!["http://example.com/image/1".to_string()])
        }
        _ => panic!("the photos are stored first"),
    }
    let stored = vec!["/tmp/a.jpg".to_string(), "/tmp/b.jpg".to_string()];
    let (flow, action) = advance_publication(flow, PublishEvent::PhotosStored(stored.clone()));
    assert!(matches!(flow, PublishFlow::Publishing));
    match action {
        PublishAction::Publish { listing, client_id } => {
            assert_eq!(client_id, "client");
            assert_eq!(listing.image(), &stored);
            assert_eq!(listing.price(), 1000000);
            assert_eq!(listing.address(), "A street example");
            assert_eq!(listing.parking(), 3);
        }
        _ => panic!("the listing is published next"),
    }
}

#[test]
fn refused_publication_keeps_photos_and_passes_failure_on() {
    let usecase = AddPropertyUseCase::new(
        Arc::new(InMemoryImageRepository::new()),
        Arc::new(InMemoryMarketplace::new()),
    );
    let answer = run_property(
        &usecase,
        "client".to_string(),
        sample_property(),
        Some(DomainError::AutomationError("step".to_string())),
    );
    match answer {
        Err(UseCasesError::Domain(DomainError::AutomationError(m))) => assert_eq!(m, "step"),
        other => panic!("unexpected answer {:?}", other),
    }
    // The photos were stored and never removed.
    assert_eq!(usecase.image_repository().storage.lock().unwrap().len(), 1);
}

#[test]
fn successful_publication_removes_photos() {
    let usecase = AddPropertyUseCase::new(
        Arc::new(InMemoryImageRepository::new()),
        Arc::new(InMemoryMarketplace::new()),
    );
    let answer = run_property(&usecase, "client".to_string(), sample_property(), None);
    assert!(answer.is_ok());
    assert!(usecase.image_repository().storage.lock().unwrap().is_empty());
    assert_eq!(usecase.webscraping_marketplace_service().properties.lock().unwrap().len(), 1);
}

#[test]
fn single_call_use_cases_pass_failures_on() {
    let marketplace = Arc::new(InMemoryMarketplace::new());
    let get = GetMarketplaceUseCase::new(marketplace.clone());
    assert!(matches!(get.complete(Ok(true)), Ok(true)));
    assert!(matches!(
        get.complete(Err(DomainError::NotFound)),
        Err(UseCasesError::Domain(DomainError::NotFound))
    ));
    let renew = RenewListingsUseCase::new(marketplace.clone());
    assert!(matches!(renew.complete(Ok(7)), Ok(7)));
    assert!(matches!(
        renew.complete(Err(DomainError::LimitReached)),
        Err(UseCasesError::Domain(DomainError::LimitReached))
    ));
    let signout = SignOutMarketplaceUseCase::new(marketplace.clone());
    assert!(signout.complete(Ok(())).is_ok());
    let signin = SignInMarketplaceUseCase::new(marketplace);
    assert!(matches!(
        signin.complete(Err(DomainError::NotFound)),
        Err(UseCasesError::Domain(DomainError::NotFound))
    ));
}
