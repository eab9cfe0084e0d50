//! The choices a vehicle listing offers, and the Portuguese labels that the
//! marketplace form shows for them.

use vstd::prelude::*;

verus! {

/// The shape of a car's body.
#[derive(Debug, Clone, Copy, PartialEq, Eq, Structural)]
pub enum BodyStyle {
    Coupe,
    Pickup,
    Sedan,
    Hatchback,
    Suv,
    Convertible,
    StationWagon,
    Minivan,
    CompactCar,
    Other,
}

impl BodyStyle {
    /// The label of this body style in the marketplace form.
    pub open spec fn label(self) -> Seq<char> {
        match self {
            BodyStyle::Coupe => "Cupê"@,
            BodyStyle::Pickup => "Picape"@,
            BodyStyle::Sedan => "Sedã"@,
            BodyStyle::Hatchback => "Hatch"@,
            BodyStyle::Suv => "SUV"@,
            BodyStyle::Convertible => "Conversível"@,
            BodyStyle::StationWagon => "Station wagon"@,
            BodyStyle::Minivan => "Minivan"@,
            BodyStyle::CompactCar => "Carro compacto"@,
            BodyStyle::Other => "Outro"@,
        }
    }

    pub fn transform(&self) -> (r: &'static str)
        ensures
            r@ == self.label(),
    {
        match self {
            BodyStyle::Coupe => "Cupê",
            BodyStyle::Pickup => "Picape",
            BodyStyle::Sedan => "Sedã",
            BodyStyle::Hatchback => "Hatch",
            BodyStyle::Suv => "SUV",
            BodyStyle::Convertible => "Conversível",
            BodyStyle::StationWagon => "Station wagon",
            BodyStyle::Minivan => "Minivan",
            BodyStyle::CompactCar => "Carro compacto",
            BodyStyle::Other => "Outro",
        }
    }
}

/// The kind of vehicle on offer.
#[derive(Debug, Clone, Copy, PartialEq, Eq, Structural)]
pub enum Category {
    CarOrPickup,
    Motorcycle,
    SportsVehicle,
    Trailer,
    UtilityTrailer,
    Boat,
    CommercialOrIndustrial,
    Other,
}

impl Category {
    /// The label of this vehicle type in the marketplace form.
    pub open spec fn label(self) -> Seq<char> {
        match self {
            Category::CarOrPickup => "Carro/picape"@,
            Category::Motorcycle => "Motocicleta"@,
            Category::SportsVehicle => "Veículos para esportes"@,
            Category::Trailer => "Trailer"@,
            Category::UtilityTrailer => "Reboque"@,
            Category::Boat => "Barco"@,
            Category::CommercialOrIndustrial => "Comercial/industrial"@,
            Category::Other => "Outro"@,
        }
    }

    pub fn transform(&self) -> (r: &'static str)
        ensures
            r@ == self.label(),
    {
        match self {
            Category::CarOrPickup => "Carro/picape",
            Category::Motorcycle => "Motocicleta",
            Category::SportsVehicle => "Veículos para esportes",
            Category::Trailer => "Trailer",
            Category::UtilityTrailer => "Reboque",
            Category::Boat => "Barco",
            Category::CommercialOrIndustrial => "Comercial/industrial",
            Category::Other => "Outro",
        }
    }
}

/// How well the vehicle has been kept.
#[derive(Debug, Clone, Copy, PartialEq, Eq, Structural)]
pub enum Condition {
    Excellent,
    VeryGood,
    Good,
    Fair,
    Poor,
}

impl Condition {
    /// The label of this condition in the marketplace form.
    pub open spec fn label(self) -> Seq<char> {
        match self {
            Condition::Excellent => "Excelente"@,
            Condition::VeryGood => "Muito bom"@,
            Condition::Good => "Bom"@,
            Condition::Fair => "Razoável"@,
            Condition::Poor => "Ruim"@,
        }
    }

    pub fn transform(&self) -> (r: &'static str)
        ensures
            r@ == self.label(),
    {
        match self {
            Condition::Excellent => "Excelente",
            Condition::VeryGood => "Muito bom",
            Condition::Good => "Bom",
            Condition::Fair => "Razoável",
            Condition::Poor => "Ruim",
        }
    }
}

/// The fuel the vehicle runs on.
#[derive(Debug, Clone, Copy, PartialEq, Eq, Structural)]
pub enum Fuel {
    Diesel,
    Electric,
    Gasoline,
    Flex,
    Hybrid,
    PlugInHybrid,
    Other,
}

impl Fuel {
    /// The label of this fuel in the marketplace form.
    pub open spec fn label(self) -> Seq<char> {
        match self {
            Fuel::Diesel => "Diesel"@,
            Fuel::Electric => "Elétrico"@,
            Fuel::Gasoline => "Gasolina"@,
            Fuel::Flex => "Flex"@,
            Fuel::Hybrid => "Híbrido"@,
            Fuel::PlugInHybrid => "Híbrido plug-in"@,
            Fuel::Other => "Outro"@,
        }
    }

    pub fn transform(&self) -> (r: &'static str)
        ensures
            r@ == self.label(),
    {
        match self {
            Fuel::Diesel => "Diesel",
            Fuel::Electric => "Elétrico",
            Fuel::Gasoline => "Gasolina",
            Fuel::Flex => "Flex",
            Fuel::Hybrid => "Híbrido",
            Fuel::PlugInHybrid => "Híbrido plug-in",
            Fuel::Other => "Outro",
        }
    }
}

/// The maker of the vehicle.
#[derive(Debug, Clone, Copy, PartialEq, Eq, Structural)]
pub enum Manufacturer {
    Adly,
}

impl Manufacturer {
    /// The label of this maker in the marketplace form.
    pub open spec fn label(self) -> Seq<char> {
        match self {
            Manufacturer::Adly => "Adly"@,
        }
    }

    pub fn transform(&self) -> (r: &'static str)
        ensures
            r@ == self.label(),
    {
        match self {
            Manufacturer::Adly => "Adly",
        }
    }
}





/// Distinct choices have distinct labels, so a label names one choice.
pub proof fn lemma_bodystyle_labels_distinct(a: BodyStyle, b: BodyStyle)
    ensures
        a.label() == b.label() ==> a == b,
{
    reveal_strlit("Cupê");
    reveal_strlit("Picape");
    reveal_strlit("Sedã");
    reveal_strlit("Hatch");
    reveal_strlit("SUV");
    reveal_strlit("Conversível");
    reveal_strlit("Station wagon");
    reveal_strlit("Minivan");
    reveal_strlit("Carro compacto");
    reveal_strlit("Outro");
    match (a, b) {
        (BodyStyle::Coupe, BodyStyle::Pickup) => {
            assert(BodyStyle::Coupe.label().len() != BodyStyle::Pickup.label().len());
        },
        (BodyStyle::Coupe, BodyStyle::Sedan) => {
            assert(BodyStyle::Coupe.label()[0] != BodyStyle::Sedan.label()[0]);
        },
        (BodyStyle::Coupe, BodyStyle::Hatchback) => {
            assert(BodyStyle::Coupe.label().len() != BodyStyle::Hatchback.label().len());
        },
        (BodyStyle::Coupe, BodyStyle::Suv) => {
            assert(BodyStyle::Coupe.label().len() != BodyStyle::Suv.label().len());
        },
        (BodyStyle::Coupe, BodyStyle::Convertible) => {
            assert(BodyStyle::Coupe.label().len() != BodyStyle::Convertible.label().len());
        },
        (BodyStyle::Coupe, BodyStyle::StationWagon) => {
            assert(BodyStyle::Coupe.label().len() != BodyStyle::StationWagon.label().len());
        },
        (BodyStyle::Coupe, BodyStyle::Minivan) => {
            assert(BodyStyle::Coupe.label().len() != BodyStyle::Minivan.label().len());
        },
        (BodyStyle::Coupe, BodyStyle::CompactCar) => {
            assert(BodyStyle::Coupe.label().len() != BodyStyle::CompactCar.label().len());
        },
        (BodyStyle::Coupe, BodyStyle::Other) => {
            assert(BodyStyle::Coupe.label().len() != BodyStyle::Other.label().len());
        },
        (BodyStyle::Pickup, BodyStyle::Coupe) => {
            assert(BodyStyle::Pickup.label().len() != BodyStyle::Coupe.label().len());
        },
        (BodyStyle::Pickup, BodyStyle::Sedan) => {
            assert(BodyStyle::Pickup.label().len() != BodyStyle::Sedan.label().len());
        },
        (BodyStyle::Pickup, BodyStyle::Hatchback) => {
            assert(BodyStyle::Pickup.label().len() != BodyStyle::Hatchback.label().len());
        },
        (BodyStyle::Pickup, BodyStyle::Suv) => {
            assert(BodyStyle::Pickup.label().len() != BodyStyle::Suv.label().len());
        },
        (BodyStyle::Pickup, BodyStyle::Convertible) => {
            assert(BodyStyle::Pickup.label().len() != BodyStyle::Convertible.label().len());
        },
        (BodyStyle::Pickup, BodyStyle::StationWagon) => {
            assert(BodyStyle::Pickup.label().len() != BodyStyle::StationWagon.label().len());
        },
        (BodyStyle::Pickup, BodyStyle::Minivan) => {
            assert(BodyStyle::Pickup.label().len() != BodyStyle::Minivan.label().len());
        },
        (BodyStyle::Pickup, BodyStyle::CompactCar) => {
            assert(BodyStyle::Pickup.label().len() != BodyStyle::CompactCar.label().len());
        },
        (BodyStyle::Pickup, BodyStyle::Other) => {
            assert(BodyStyle::Pickup.label().len() != BodyStyle::Other.label().len());
        },
        (BodyStyle::Sedan, BodyStyle::Coupe) => {
            assert(BodyStyle::Sedan.label()[0] != BodyStyle::Coupe.label()[0]);
        },
        (BodyStyle::Sedan, BodyStyle::Pickup) => {
            assert(BodyStyle::Sedan.label().len() != BodyStyle::Pickup.label().len());
        },
        (BodyStyle::Sedan, BodyStyle::Hatchback) => {
            assert(BodyStyle::Sedan.label().len() != BodyStyle::Hatchback.label().len());
        },
        (BodyStyle::Sedan, BodyStyle::Suv) => {
            assert(BodyStyle::Sedan.label().len() != BodyStyle::Suv.label().len());
        },
        (BodyStyle::Sedan, BodyStyle::Convertible) => {
            assert(BodyStyle::Sedan.label().len() != BodyStyle::Convertible.label().len());
        },
        (BodyStyle::Sedan, BodyStyle::StationWagon) => {
            assert(BodyStyle::Sedan.label().len() != BodyStyle::StationWagon.label().len());
        },
        (BodyStyle::Sedan, BodyStyle::Minivan) => {
            assert(BodyStyle::Sedan.label().len() != BodyStyle::Minivan.label().len());
        },
        (BodyStyle::Sedan, BodyStyle::CompactCar) => {
            assert(BodyStyle::Sedan.label().len() != BodyStyle::CompactCar.label().len());
        },
        (BodyStyle::Sedan, BodyStyle::Other) => {
            assert(BodyStyle::Sedan.label().len() != BodyStyle::Other.label().len());
        },
        (BodyStyle::Hatchback, BodyStyle::Coupe) => {
            assert(BodyStyle::Hatchback.label().len() != BodyStyle::Coupe.label().len());
        },
        (BodyStyle::Hatchback, BodyStyle::Pickup) => {
            assert(BodyStyle::Hatchback.label().len() != BodyStyle::Pickup.label().len());
        },
        (BodyStyle::Hatchback, BodyStyle::Sedan) => {
            assert(BodyStyle::Hatchback.label().len() != BodyStyle::Sedan.label().len());
        },
        (BodyStyle::Hatchback, BodyStyle::Suv) => {
            assert(BodyStyle::Hatchback.label().len() != BodyStyle::Suv.label().len());
        },
        (BodyStyle::Hatchback, BodyStyle::Convertible) => {
            assert(BodyStyle::Hatchback.label().len() != BodyStyle::Convertible.label().len());
        },
        (BodyStyle::Hatchback, BodyStyle::StationWagon) => {
            assert(BodyStyle::Hatchback.label().len() != BodyStyle::StationWagon.label().len());
        },
        (BodyStyle::Hatchback, BodyStyle::Minivan) => {
            assert(BodyStyle::Hatchback.label().len() != BodyStyle::Minivan.label().len());
        },
        (BodyStyle::Hatchback, BodyStyle::CompactCar) => {
            assert(BodyStyle::Hatchback.label().len() != BodyStyle::CompactCar.label().len());
        },
        (BodyStyle::Hatchback, BodyStyle::Other) => {
            assert(BodyStyle::Hatchback.label()[0] != BodyStyle::Other.label()[0]);
        },
        (BodyStyle::Suv, BodyStyle::Coupe) => {
            assert(BodyStyle::Suv.label().len() != BodyStyle::Coupe.label().len());
        },
        (BodyStyle::Suv, BodyStyle::Pickup) => {
            assert(BodyStyle::Suv.label().len() != BodyStyle::Pickup.label().len());
        },
        (BodyStyle::Suv, BodyStyle::Sedan) => {
            assert(BodyStyle::Suv.label().len() != BodyStyle::Sedan.label().len());
        },
        (BodyStyle::Suv, BodyStyle::Hatchback) => {
            assert(BodyStyle::Suv.label().len() != BodyStyle::Hatchback.label().len());
        },
        (BodyStyle::Suv, BodyStyle::Convertible) => {
            assert(BodyStyle::Suv.label().len() != BodyStyle::Convertible.label().len());
        },
        (BodyStyle::Suv, BodyStyle::StationWagon) => {
            assert(BodyStyle::Suv.label().len() != BodyStyle::StationWagon.label().len());
        },
        (BodyStyle::Suv, BodyStyle::Minivan) => {
            assert(BodyStyle::Suv.label().len() != BodyStyle::Minivan.label().len());
        },
        (BodyStyle::Suv, BodyStyle::CompactCar) => {
            assert(BodyStyle::Suv.label().len() != BodyStyle::CompactCar.label().len());
        },
        (BodyStyle::Suv, BodyStyle::Other) => {
            assert(BodyStyle::Suv.label().len() != BodyStyle::Other.label().len());
        },
        (BodyStyle::Convertible, BodyStyle::Coupe) => {
            assert(BodyStyle::Convertible.label().len() != BodyStyle::Coupe.label().len());
        },
        (BodyStyle::Convertible, BodyStyle::Pickup) => {
            assert(BodyStyle::Convertible.label().len() != BodyStyle::Pickup.label().len());
        },
        (BodyStyle::Convertible, BodyStyle::Sedan) => {
            assert(BodyStyle::Convertible.label().len() != BodyStyle::Sedan.label().len());
        },
        (BodyStyle::Convertible, BodyStyle::Hatchback) => {
            assert(BodyStyle::Convertible.label().len() != BodyStyle::Hatchback.label().len());
        },
        (BodyStyle::Convertible, BodyStyle::Suv) => {
            assert(BodyStyle::Convertible.label().len() != BodyStyle::Suv.label().len());
        },
        (BodyStyle::Convertible, BodyStyle::StationWagon) => {
            assert(BodyStyle::Convertible.label().len() != BodyStyle::StationWagon.label().len());
        },
        (BodyStyle::Convertible, BodyStyle::Minivan) => {
            assert(BodyStyle::Convertible.label().len() != BodyStyle::Minivan.label().len());
        },
        (BodyStyle::Convertible, BodyStyle::CompactCar) => {
            assert(BodyStyle::Convertible.label().len() != BodyStyle::CompactCar.label().len());
        },
        (BodyStyle::Convertible, BodyStyle::Other) => {
            assert(BodyStyle::Convertible.label().len() != BodyStyle::Other.label().len());
        },
        (BodyStyle::StationWagon, BodyStyle::Coupe) => {
            assert(BodyStyle::StationWagon.label().len() != BodyStyle::Coupe.label().len());
        },
        (BodyStyle::StationWagon, BodyStyle::Pickup) => {
            assert(BodyStyle::StationWagon.label().len() != BodyStyle::Pickup.label().len());
        },
        (BodyStyle::StationWagon, BodyStyle::Sedan) => {
            assert(BodyStyle::StationWagon.label().len() != BodyStyle::Sedan.label().len());
        },
        (BodyStyle::StationWagon, BodyStyle::Hatchback) => {
            assert(BodyStyle::StationWagon.label().len() != BodyStyle::Hatchback.label().len());
        },
        (BodyStyle::StationWagon, BodyStyle::Suv) => {
            assert(BodyStyle::StationWagon.label().len() != BodyStyle::Suv.label().len());
        },
        (BodyStyle::StationWagon, BodyStyle::Convertible) => {
            assert(BodyStyle::StationWagon.label().len() != BodyStyle::Convertible.label().len());
        },
        (BodyStyle::StationWagon, BodyStyle::Minivan) => {
            assert(BodyStyle::StationWagon.label().len() != BodyStyle::Minivan.label().len());
        },
        (BodyStyle::StationWagon, BodyStyle::CompactCar) => {
            assert(BodyStyle::StationWagon.label().len() != BodyStyle::CompactCar.label().len());
        },
        (BodyStyle::StationWagon, BodyStyle::Other) => {
            assert(BodyStyle::StationWagon.label().len() != BodyStyle::Other.label().len());
        },
        (BodyStyle::Minivan, BodyStyle::Coupe) => {
            assert(BodyStyle::Minivan.label().len() != BodyStyle::Coupe.label().len());
        },
        (BodyStyle::Minivan, BodyStyle::Pickup) => {
            assert(BodyStyle::Minivan.label().len() != BodyStyle::Pickup.label().len());
        },
        (BodyStyle::Minivan, BodyStyle::Sedan) => {
            assert(BodyStyle::Minivan.label().len() != BodyStyle::Sedan.label().len());
        },
        (BodyStyle::Minivan, BodyStyle::Hatchback) => {
            assert(BodyStyle::Minivan.label().len() != BodyStyle::Hatchback.label().len());
        },
        (BodyStyle::Minivan, BodyStyle::Suv) => {
            assert(BodyStyle::Minivan.label().len() != BodyStyle::Suv.label().len());
        },
        (BodyStyle::Minivan, BodyStyle::Convertible) => {
            assert(BodyStyle::Minivan.label().len() != BodyStyle::Convertible.label().len());
        },
        (BodyStyle::Minivan, BodyStyle::StationWagon) => {
            assert(BodyStyle::Minivan.label().len() != BodyStyle::StationWagon.label().len());
        },
        (BodyStyle::Minivan, BodyStyle::CompactCar) => {
            assert(BodyStyle::Minivan.label().len() != BodyStyle::CompactCar.label().len());
        },
        (BodyStyle::Minivan, BodyStyle::Other) => {
            assert(BodyStyle::Minivan.label().len() != BodyStyle::Other.label().len());
        },
        (BodyStyle::CompactCar, BodyStyle::Coupe) => {
            assert(BodyStyle::CompactCar.label().len() != BodyStyle::Coupe.label().len());
        },
        (BodyStyle::CompactCar, BodyStyle::Pickup) => {
            assert(BodyStyle::CompactCar.label().len() != BodyStyle::Pickup.label().len());
        },
        (BodyStyle::CompactCar, BodyStyle::Sedan) => {
            assert(BodyStyle::CompactCar.label().len() != BodyStyle::Sedan.label().len());
        },
        (BodyStyle::CompactCar, BodyStyle::Hatchback) => {
            assert(BodyStyle::CompactCar.label().len() != BodyStyle::Hatchback.label().len());
        },
        (BodyStyle::CompactCar, BodyStyle::Suv) => {
            assert(BodyStyle::CompactCar.label().len() != BodyStyle::Suv.label().len());
        },
        (BodyStyle::CompactCar, BodyStyle::Convertible) => {
            assert(BodyStyle::CompactCar.label().len() != BodyStyle::Convertible.label().len());
        },
        (BodyStyle::CompactCar, BodyStyle::StationWagon) => {
            assert(BodyStyle::CompactCar.label().len() != BodyStyle::StationWagon.label().len());
        },
        (BodyStyle::CompactCar, BodyStyle::Minivan) => {
            assert(BodyStyle::CompactCar.label().len() != BodyStyle::Minivan.label().len());
        },
        (BodyStyle::CompactCar, BodyStyle::Other) => {
            assert(BodyStyle::CompactCar.label().len() != BodyStyle::Other.label().len());
        },
        (BodyStyle::Other, BodyStyle::Coupe) => {
            assert(BodyStyle::Other.label().len() != BodyStyle::Coupe.label().len());
        },
        (BodyStyle::Other, BodyStyle::Pickup) => {
            assert(BodyStyle::Other.label().len() != BodyStyle::Pickup.label().len());
        },
        (BodyStyle::Other, BodyStyle::Sedan) => {
            assert(BodyStyle::Other.label().len() != BodyStyle::Sedan.label().len());
        },
        (BodyStyle::Other, BodyStyle::Hatchback) => {
            assert(BodyStyle::Other.label()[0] != BodyStyle::Hatchback.label()[0]);
        },
        (BodyStyle::Other, BodyStyle::Suv) => {
            assert(BodyStyle::Other.label().len() != BodyStyle::Suv.label().len());
        },
        (BodyStyle::Other, BodyStyle::Convertible) => {
            assert(BodyStyle::Other.label().len() != BodyStyle::Convertible.label().len());
        },
        (BodyStyle::Other, BodyStyle::StationWagon) => {
            assert(BodyStyle::Other.label().len() != BodyStyle::StationWagon.label().len());
        },
        (BodyStyle::Other, BodyStyle::Minivan) => {
            assert(BodyStyle::Other.label().len() != BodyStyle::Minivan.label().len());
        },
        (BodyStyle::Other, BodyStyle::CompactCar) => {
            assert(BodyStyle::Other.label().len() != BodyStyle::CompactCar.label().len());
        },
        _ => {},
    }
}

/// Distinct choices have distinct labels, so a label names one choice.
pub proof fn lemma_category_labels_distinct(a: Category, b: Category)
    ensures
        a.label() == b.label() ==> a == b,
{
    reveal_strlit("Carro/picape");
    reveal_strlit("Motocicleta");
    reveal_strlit("Veículos para esportes");
    reveal_strlit("Trailer");
    reveal_strlit("Reboque");
    reveal_strlit("Barco");
    reveal_strlit("Comercial/industrial");
    reveal_strlit("Outro");
    match (a, b) {
        (Category::CarOrPickup, Category::Motorcycle) => {
            assert(Category::CarOrPickup.label().len() != Category::Motorcycle.label().len());
        },
        (Category::CarOrPickup, Category::SportsVehicle) => {
            assert(Category::CarOrPickup.label().len() != Category::SportsVehicle.label().len());
        },
        (Category::CarOrPickup, Category::Trailer) => {
            assert(Category::CarOrPickup.label().len() != Category::Trailer.label().len());
        },
        (Category::CarOrPickup, Category::UtilityTrailer) => {
            assert(Category::CarOrPickup.label().len() != Category::UtilityTrailer.label().len());
        },
        (Category::CarOrPickup, Category::Boat) => {
            assert(Category::CarOrPickup.label().len() != Category::Boat.label().len());
        },
        (Category::CarOrPickup, Category::CommercialOrIndustrial) => {
            assert(Category::CarOrPickup.label().len() != Category::CommercialOrIndustrial.label().len());
        },
        (Category::CarOrPickup, Category::Other) => {
            assert(Category::CarOrPickup.label().len() != Category::Other.label().len());
        },
        (Category::Motorcycle, Category::CarOrPickup) => {
            assert(Category::Motorcycle.label().len() != Category::CarOrPickup.label().len());
        },
        (Category::Motorcycle, Category::SportsVehicle) => {
            assert(Category::Motorcycle.label().len() != Category::SportsVehicle.label().len());
        },
        (Category::Motorcycle, Category::Trailer) => {
            assert(Category::Motorcycle.label().len() != Category::Trailer.label().len());
        },
        (Category::Motorcycle, Category::UtilityTrailer) => {
            assert(Category::Motorcycle.label().len() != Category::UtilityTrailer.label().len());
        },
        (Category::Motorcycle, Category::Boat) => {
            assert(Category::Motorcycle.label().len() != Category::Boat.label().len());
        },
        (Category::Motorcycle, Category::CommercialOrIndustrial) => {
            assert(Category::Motorcycle.label().len() != Category::CommercialOrIndustrial.label().len());
        },
        (Category::Motorcycle, Category::Other) => {
            assert(Category::Motorcycle.label().len() != Category::Other.label().len());
        },
        (Category::SportsVehicle, Category::CarOrPickup) => {
            assert(Category::SportsVehicle.label().len() != Category::CarOrPickup.label().len());
        },
        (Category::SportsVehicle, Category::Motorcycle) => {
            assert(Category::SportsVehicle.label().len() != Category::Motorcycle.label().len());
        },
        (Category::SportsVehicle, Category::Trailer) => {
            assert(Category::SportsVehicle.label().len() != Category::Trailer.label().len());
        },
        (Category::SportsVehicle, Category::UtilityTrailer) => {
            assert(Category::SportsVehicle.label().len() != Category::UtilityTrailer.label().len());
        },
        (Category::SportsVehicle, Category::Boat) => {
            assert(Category::SportsVehicle.label().len() != Category::Boat.label().len());
        },
        (Category::SportsVehicle, Category::CommercialOrIndustrial) => {
            assert(Category::SportsVehicle.label().len() != Category::CommercialOrIndustrial.label().len());
        },
        (Category::SportsVehicle, Category::Other) => {
            assert(Category::SportsVehicle.label().len() != Category::Other.label().len());
        },
        (Category::Trailer, Category::CarOrPickup) => {
            assert(Category::Trailer.label().len() != Category::CarOrPickup.label().len());
        },
        (Category::Trailer, Category::Motorcycle) => {
            assert(Category::Trailer.label().len() != Category::Motorcycle.label().len());
        },
        (Category::Trailer, Category::SportsVehicle) => {
            assert(Category::Trailer.label().len() != Category::SportsVehicle.label().len());
        },
        (Category::Trailer, Category::UtilityTrailer) => {
            assert(Category::Trailer.label()[0] != Category::UtilityTrailer.label()[0]);
        },
        (Category::Trailer, Category::Boat) => {
            assert(Category::Trailer.label().len() != Category::Boat.label().len());
        },
        (Category::Trailer, Category::CommercialOrIndustrial) => {
            assert(Category::Trailer.label().len() != Category::CommercialOrIndustrial.label().len());
        },
        (Category::Trailer, Category::Other) => {
            assert(Category::Trailer.label().len() != Category::Other.label().len());
        },
        (Category::UtilityTrailer, Category::CarOrPickup) => {
            assert(Category::UtilityTrailer.label().len() != Category::CarOrPickup.label().len());
        },
        (Category::UtilityTrailer, Category::Motorcycle) => {
            assert(Category::UtilityTrailer.label().len() != Category::Motorcycle.label().len());
        },
        (Category::UtilityTrailer, Category::SportsVehicle) => {
            assert(Category::UtilityTrailer.label().len() != Category::SportsVehicle.label().len());
        },
        (Category::UtilityTrailer, Category::Trailer) => {
            assert(Category::UtilityTrailer.label()[0] != Category::Trailer.label()[0]);
        },
        (Category::UtilityTrailer, Category::Boat) => {
            assert(Category::UtilityTrailer.label().len() != Category::Boat.label().len());
        },
        (Category::UtilityTrailer, Category::CommercialOrIndustrial) => {
            assert(Category::UtilityTrailer.label().len() != Category::CommercialOrIndustrial.label().len());
        },
        (Category::UtilityTrailer, Category::Other) => {
            assert(Category::UtilityTrailer.label().len() != Category::Other.label().len());
        },
        (Category::Boat, Category::CarOrPickup) => {
            assert(Category::Boat.label().len() != Category::CarOrPickup.label().len());
        },
        (Category::Boat, Category::Motorcycle) => {
            assert(Category::Boat.label().len() != Category::Motorcycle.label().len());
        },
        (Category::Boat, Category::SportsVehicle) => {
            assert(Category::Boat.label().len() != Category::SportsVehicle.label().len());
        },
        (Category::Boat, Category::Trailer) => {
            assert(Category::Boat.label().len() != Category::Trailer.label().len());
        },
        (Category::Boat, Category::UtilityTrailer) => {
            assert(Category::Boat.label().len() != Category::UtilityTrailer.label().len());
        },
        (Category::Boat, Category::CommercialOrIndustrial) => {
            assert(Category::Boat.label().len() != Category::CommercialOrIndustrial.label().len());
        },
        (Category::Boat, Category::Other) => {
            assert(Category::Boat.label()[0] != Category::Other.label()[0]);
        },
        (Category::CommercialOrIndustrial, Category::CarOrPickup) => {
            assert(Category::CommercialOrIndustrial.label().len() != Category::CarOrPickup.label().len());
        },
        (Category::CommercialOrIndustrial, Category::Motorcycle) => {
            assert(Category::CommercialOrIndustrial.label().len() != Category::Motorcycle.label().len());
        },
        (Category::CommercialOrIndustrial, Category::SportsVehicle) => {
            assert(Category::CommercialOrIndustrial.label().len() != Category::SportsVehicle.label().len());
        },
        (Category::CommercialOrIndustrial, Category::Trailer) => {
            assert(Category::CommercialOrIndustrial.label().len() != Category::Trailer.label().len());
        },
        (Category::CommercialOrIndustrial, Category::UtilityTrailer) => {
            assert(Category::CommercialOrIndustrial.label().len() != Category::UtilityTrailer.label().len());
        },
        (Category::CommercialOrIndustrial, Category::Boat) => {
            assert(Category::CommercialOrIndustrial.label().len() != Category::Boat.label().len());
        },
        (Category::CommercialOrIndustrial, Category::Other) => {
            assert(Category::CommercialOrIndustrial.label().len() != Category::Other.label().len());
        },
        (Category::Other, Category::CarOrPickup) => {
            assert(Category::Other.label().len() != Category::CarOrPickup.label().len());
        },
        (Category::Other, Category::Motorcycle) => {
            assert(Category::Other.label().len() != Category::Motorcycle.label().len());
        },
        (Category::Other, Category::SportsVehicle) => {
            assert(Category::Other.label().len() != Category::SportsVehicle.label().len());
        },
        (Category::Other, Category::Trailer) => {
            assert(Category::Other.label().len() != Category::Trailer.label().len());
        },
        (Category::Other, Category::UtilityTrailer) => {
            assert(Category::Other.label().len() != Category::UtilityTrailer.label().len());
        },
        (Category::Other, Category::Boat) => {
            assert(Category::Other.label()[0] != Category::Boat.label()[0]);
        },
        (Category::Other, Category::CommercialOrIndustrial) => {
            assert(Category::Other.label().len() != Category::CommercialOrIndustrial.label().len());
        },
        _ => {},
    }
}

/// Distinct choices have distinct labels, so a label names one choice.
pub proof fn lemma_condition_labels_distinct(a: Condition, b: Condition)
    ensures
        a.label() == b.label() ==> a == b,
{
    reveal_strlit("Excelente");
    reveal_strlit("Muito bom");
    reveal_strlit("Bom");
    reveal_strlit("Razoável");
    reveal_strlit("Ruim");
    match (a, b) {
        (Condition::Excellent, Condition::VeryGood) => {
            assert(Condition::Excellent.label()[0] != Condition::VeryGood.label()[0]);
        },
        (Condition::Excellent, Condition::Good) => {
            assert(Condition::Excellent.label().len() != Condition::Good.label().len());
        },
        (Condition::Excellent, Condition::Fair) => {
            assert(Condition::Excellent.label().len() != Condition::Fair.label().len());
        },
        (Condition::Excellent, Condition::Poor) => {
            assert(Condition::Excellent.label().len() != Condition::Poor.label().len());
        },
        (Condition::VeryGood, Condition::Excellent) => {
            assert(Condition::VeryGood.label()[0] != Condition::Excellent.label()[0]);
        },
        (Condition::VeryGood, Condition::Good) => {
            assert(Condition::VeryGood.label().len() != Condition::Good.label().len());
        },
        (Condition::VeryGood, Condition::Fair) => {
            assert(Condition::VeryGood.label().len() != Condition::Fair.label().len());
        },
        (Condition::VeryGood, Condition::Poor) => {
            assert(Condition::VeryGood.label().len() != Condition::Poor.label().len());
        },
        (Condition::Good, Condition::Excellent) => {
            assert(Condition::Good.label().len() != Condition::Excellent.label().len());
        },
        (Condition::Good, Condition::VeryGood) => {
            assert(Condition::Good.label().len() != Condition::VeryGood.label().len());
        },
        (Condition::Good, Condition::Fair) => {
            assert(Condition::Good.label().len() != Condition::Fair.label().len());
        },
        (Condition::Good, Condition::Poor) => {
            assert(Condition::Good.label().len() != Condition::Poor.label().len());
        },
        (Condition::Fair, Condition::Excellent) => {
            assert(Condition::Fair.label().len() != Condition::Excellent.label().len());
        },
        (Condition::Fair, Condition::VeryGood) => {
            assert(Condition::Fair.label().len() != Condition::VeryGood.label().len());
        },
        (Condition::Fair, Condition::Good) => {
            assert(Condition::Fair.label().len() != Condition::Good.label().len());
        },
        (Condition::Fair, Condition::Poor) => {
            assert(Condition::Fair.label().len() != Condition::Poor.label().len());
        },
        (Condition::Poor, Condition::Excellent) => {
            assert(Condition::Poor.label().len() != Condition::Excellent.label().len());
        },
        (Condition::Poor, Condition::VeryGood) => {
            assert(Condition::Poor.label().len() != Condition::VeryGood.label().len());
        },
        (Condition::Poor, Condition::Good) => {
            assert(Condition::Poor.label().len() != Condition::Good.label().len());
        },
        (Condition::Poor, Condition::Fair) => {
            assert(Condition::Poor.label().len() != Condition::Fair.label().len());
        },
        _ => {},
    }
}

/// Distinct choices have distinct labels, so a label names one choice.
pub proof fn lemma_fuel_labels_distinct(a: Fuel, b: Fuel)
    ensures
        a.label() == b.label() ==> a == b,
{
    reveal_strlit("Diesel");
    reveal_strlit("Elétrico");
    reveal_strlit("Gasolina");
    reveal_strlit("Flex");
    reveal_strlit("Híbrido");
    reveal_strlit("Híbrido plug-in");
    reveal_strlit("Outro");
    match (a, b) {
        (Fuel::Diesel, Fuel::Electric) => {
            assert(Fuel::Diesel.label().len() != Fuel::Electric.label().len());
        },
        (Fuel::Diesel, Fuel::Gasoline) => {
            assert(Fuel::Diesel.label().len() != Fuel::Gasoline.label().len());
        },
        (Fuel::Diesel, Fuel::Flex) => {
            assert(Fuel::Diesel.label().len() != Fuel::Flex.label().len());
        },
        (Fuel::Diesel, Fuel::Hybrid) => {
            assert(Fuel::Diesel.label().len() != Fuel::Hybrid.label().len());
        },
        (Fuel::Diesel, Fuel::PlugInHybrid) => {
            assert(Fuel::Diesel.label().len() != Fuel::PlugInHybrid.label().len());
        },
        (Fuel::Diesel, Fuel::Other) => {
            assert(Fuel::Diesel.label().len() != Fuel::Other.label().len());
        },
        (Fuel::Electric, Fuel::Diesel) => {
            assert(Fuel::Electric.label().len() != Fuel::Diesel.label().len());
        },
        (Fuel::Electric, Fuel::Gasoline) => {
            assert(Fuel::Electric.label()[0] != Fuel::Gasoline.label()[0]);
        },
        (Fuel::Electric, Fuel::Flex) => {
            assert(Fuel::Electric.label().len() != Fuel::Flex.label().len());
        },
        (Fuel::Electric, Fuel::Hybrid) => {
            assert(Fuel::Electric.label().len() != Fuel::Hybrid.label().len());
        },
        (Fuel::Electric, Fuel::PlugInHybrid) => {
            assert(Fuel::Electric.label().len() != Fuel::PlugInHybrid.label().len());
        },
        (Fuel::Electric, Fuel::Other) => {
            assert(Fuel::Electric.label().len() != Fuel::Other.label().len());
        },
        (Fuel::Gasoline, Fuel::Diesel) => {
            assert(Fuel::Gasoline.label().len() != Fuel::Diesel.label().len());
        },
        (Fuel::Gasoline, Fuel::Electric) => {
            assert(Fuel::Gasoline.label()[0] != Fuel::Electric.label()[0]);
        },
        (Fuel::Gasoline, Fuel::Flex) => {
            assert(Fuel::Gasoline.label().len() != Fuel::Flex.label().len());
        },
        (Fuel::Gasoline, Fuel::Hybrid) => {
            assert(Fuel::Gasoline.label().len() != Fuel::Hybrid.label().len());
        },
        (Fuel::Gasoline, Fuel::PlugInHybrid) => {
            assert(Fuel::Gasoline.label().len() != Fuel::PlugInHybrid.label().len());
        },
        (Fuel::Gasoline, Fuel::Other) => {
            assert(Fuel::Gasoline.label().len() != Fuel::Other.label().len());
        },
        (Fuel::Flex, Fuel::Diesel) => {
            assert(Fuel::Flex.label().len() != Fuel::Diesel.label().len());
        },
        (Fuel::Flex, Fuel::Electric) => {
            assert(Fuel::Flex.label().len() != Fuel::Electric.label().len());
        },
        (Fuel::Flex, Fuel::Gasoline) => {
            assert(Fuel::Flex.label().len() != Fuel::Gasoline.label().len());
        },
        (Fuel::Flex, Fuel::Hybrid) => {
            assert(Fuel::Flex.label().len() != Fuel::Hybrid.label().len());
        },
        (Fuel::Flex, Fuel::PlugInHybrid) => {
            assert(Fuel::Flex.label().len() != Fuel::PlugInHybrid.label().len());
        },
        (Fuel::Flex, Fuel::Other) => {
            assert(Fuel::Flex.label().len() != Fuel::Other.label().len());
        },
        (Fuel::Hybrid, Fuel::Diesel) => {
            assert(Fuel::Hybrid.label().len() != Fuel::Diesel.label().len());
        },
        (Fuel::Hybrid, Fuel::Electric) => {
            assert(Fuel::Hybrid.label().len() != Fuel::Electric.label().len());
        },
        (Fuel::Hybrid, Fuel::Gasoline) => {
            assert(Fuel::Hybrid.label().len() != Fuel::Gasoline.label().len());
        },
        (Fuel::Hybrid, Fuel::Flex) => {
            assert(Fuel::Hybrid.label().len() != Fuel::Flex.label().len());
        },
        (Fuel::Hybrid, Fuel::PlugInHybrid) => {
            assert(Fuel::Hybrid.label().len() != Fuel::PlugInHybrid.label().len());
        },
        (Fuel::Hybrid, Fuel::Other) => {
            assert(Fuel::Hybrid.label().len() != Fuel::Other.label().len());
        },
        (Fuel::PlugInHybrid, Fuel::Diesel) => {
            assert(Fuel::PlugInHybrid.label().len() != Fuel::Diesel.label().len());
        },
        (Fuel::PlugInHybrid, Fuel::Electric) => {
            assert(Fuel::PlugInHybrid.label().len() != Fuel::Electric.label().len());
        },
        (Fuel::PlugInHybrid, Fuel::Gasoline) => {
            assert(Fuel::PlugInHybrid.label().len() != Fuel::Gasoline.label().len());
        },
        (Fuel::PlugInHybrid, Fuel::Flex) => {
            assert(Fuel::PlugInHybrid.label().len() != Fuel::Flex.label().len());
        },
        (Fuel::PlugInHybrid, Fuel::Hybrid) => {
            assert(Fuel::PlugInHybrid.label().len() != Fuel::Hybrid.label().len());
        },
        (Fuel::PlugInHybrid, Fuel::Other) => {
            assert(Fuel::PlugInHybrid.label().len() != Fuel::Other.label().len());
        },
        (Fuel::Other, Fuel::Diesel) => {
            assert(Fuel::Other.label().len() != Fuel::Diesel.label().len());
        },
        (Fuel::Other, Fuel::Electric) => {
            assert(Fuel::Other.label().len() != Fuel::Electric.label().len());
        },
        (Fuel::Other, Fuel::Gasoline) => {
            assert(Fuel::Other.label().len() != Fuel::Gasoline.label().len());
        },
        (Fuel::Other, Fuel::Flex) => {
            assert(Fuel::Other.label().len() != Fuel::Flex.label().len());
        },
        (Fuel::Other, Fuel::Hybrid) => {
            assert(Fuel::Other.label().len() != Fuel::Hybrid.label().len());
        },
        (Fuel::Other, Fuel::PlugInHybrid) => {
            assert(Fuel::Other.label().len() != Fuel::PlugInHybrid.label().len());
        },
        _ => {},
    }
}

} // verus!
