//! A vehicle listing, and the form locators that go with its fields.

use vstd::prelude::*;
use crate::domain::models::vehicle::{BodyStyle, Category, Condition, Fuel, Manufacturer};

verus! {

/// A vehicle to be listed on the marketplace.
#[derive(Clone, Debug)]
pub struct Vehicle {
    category: Category,
    image: Vec<String>,
    address: String,
    year: u16,
    manufacturer: Manufacturer,
    model: String,
    mileage: u32,
    bodystyle: BodyStyle,
    price: u32,
    condition: Condition,
    fuel: Fuel,
    description: String,
}

/// The contents of a `Vehicle`, each text taken as its characters.
pub struct VehicleView {
    pub category: Category,
    pub image: Seq<Seq<char>>,
    pub address: Seq<char>,
    pub year: u16,
    pub manufacturer: Manufacturer,
    pub model: Seq<char>,
    pub mileage: u32,
    pub bodystyle: BodyStyle,
    pub price: u32,
    pub condition: Condition,
    pub fuel: Fuel,
    pub description: Seq<char>,
}

impl View for Vehicle {
    type V = VehicleView;

    closed spec fn view(&self) -> VehicleView {
        VehicleView {
            category: self.category,
            image: self.image.deep_view(),
            address: self.address@,
            year: self.year,
            manufacturer: self.manufacturer,
            model: self.model@,
            mileage: self.mileage,
            bodystyle: self.bodystyle,
            price: self.price,
            condition: self.condition,
            fuel: self.fuel,
            description: self.description@,
        }
    }
}

impl Vehicle {
    pub fn new(
        category: Category,
        image: Vec<String>,
        address: String,
        year: u16,
        manufacturer: Manufacturer,
        model: String,
        mileage: u32,
        bodystyle: BodyStyle,
        price: u32,
        condition: Condition,
        fuel: Fuel,
        description: String,
    ) -> (r: Self)
        ensures
            r@ == (VehicleView {
                category,
                image: image.deep_view(),
                address: address@,
                year,
                manufacturer,
                model: model@,
                mileage,
                bodystyle,
                price,
                condition,
                fuel,
                description: description@,
            }),
    {
        Vehicle {
            category,
            image,
            address,
            year,
            manufacturer,
            model,
            mileage,
            bodystyle,
            price,
            condition,
            fuel,
            description,
        }
    }

    pub fn category(&self) -> (r: &Category)
        ensures
            *r == self@.category,
    {
        &self.category
    }

    pub fn image(&self) -> (r: &Vec<String>)
        ensures
            r.deep_view() == self@.image,
    {
        &self.image
    }

    /// Replaces the photos; every other field stays as it was.
    pub fn set_image(&mut self, image: Vec<String>)
        ensures
            final(self)@ == (VehicleView { image: image.deep_view(), ..old(self)@ }),
    {
        self.image = image
    }

    pub fn address(&self) -> (r: &String)
        ensures
            r@ == self@.address,
    {
        &self.address
    }

    pub fn year(&self) -> (r: u16)
        ensures
            r == self@.year,
    {
        self.year
    }

    pub fn manufacturer(&self) -> (r: &Manufacturer)
        ensures
            *r == self@.manufacturer,
    {
        &self.manufacturer
    }

    pub fn model(&self) -> (r: &String)
        ensures
            r@ == self@.model,
    {
        &self.model
    }

    pub fn mileage(&self) -> (r: u32)
        ensures
            r == self@.mileage,
    {
        self.mileage
    }

    pub fn bodystyle(&self) -> (r: &BodyStyle)
        ensures
            *r == self@.bodystyle,
    {
        &self.bodystyle
    }

    pub fn price(&self) -> (r: u32)
        ensures
            r == self@.price,
    {
        self.price
    }

    pub fn condition(&self) -> (r: &Condition)
        ensures
            *r == self@.condition,
    {
        &self.condition
    }

    pub fn fuel(&self) -> (r: &Fuel)
        ensures
            *r == self@.fuel,
    {
        &self.fuel
    }

    pub fn description(&self) -> (r: &String)
        ensures
            r@ == self@.description,
    {
        &self.description
    }
}

/// The locators of the vehicle form's fields, one per field.
#[derive(Clone, Debug)]
pub struct VehicleXPath {
    pub category: String,
    pub image: String,
    pub address: String,
    pub year: String,
    pub manufacturer: String,
    pub model: String,
    pub mileage: String,
    pub bodystyle: String,
    pub price: String,
    pub condition: String,
    pub fuel: String,
    pub description: String,
}

impl VehicleXPath {
    pub fn new(
        category: String,
        image: String,
        address: String,
        year: String,
        manufacturer: String,
        model: String,
        mileage: String,
        bodystyle: String,
        price: String,
        condition: String,
        fuel: String,
        description: String,
    ) -> (r: Self)
        ensures
            r.category == category,
            r.image == image,
            r.address == address,
            r.year == year,
            r.manufacturer == manufacturer,
            r.model == model,
            r.mileage == mileage,
            r.bodystyle == bodystyle,
            r.price == price,
            r.condition == condition,
            r.fuel == fuel,
            r.description == description,
    {
        VehicleXPath {
            category,
            image,
            address,
            year,
            manufacturer,
            model,
            mileage,
            bodystyle,
            price,
            condition,
            fuel,
            description,
        }
    }
}

} // verus!
