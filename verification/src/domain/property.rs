//! A home listing, and the form locators that go with its fields.

use vstd::prelude::*;
use crate::domain::models::property::{Category, Model};

verus! {

/// A home to be listed on the marketplace.
#[derive(Clone, Debug)]
pub struct Property {
    image: Vec<String>,
    model: Model,
    category: Category,
    bedroom: u8,
    bathroom: u8,
    price: u32,
    address: String,
    description: String,
    meter: u16,
    tax: u16,
    condominium: u16,
    parking: u8,
}

/// The contents of a `Property`, each text taken as its characters.
pub struct PropertyView {
    pub image: Seq<Seq<char>>,
    pub model: Model,
    pub category: Category,
    pub bedroom: u8,
    pub bathroom: u8,
    pub price: u32,
    pub address: Seq<char>,
    pub description: Seq<char>,
    pub meter: u16,
    pub tax: u16,
    pub condominium: u16,
    pub parking: u8,
}

impl View for Property {
    type V = PropertyView;

    closed spec fn view(&self) -> PropertyView {
        PropertyView {
            image: self.image.deep_view(),
            model: self.model,
            category: self.category,
            bedroom: self.bedroom,
            bathroom: self.bathroom,
            price: self.price,
            address: self.address@,
            description: self.description@,
            meter: self.meter,
            tax: self.tax,
            condominium: self.condominium,
            parking: self.parking,
        }
    }
}

impl Property {
    pub fn new(
        image: Vec<String>,
        model: Model,
        category: Category,
        bedroom: u8,
        bathroom: u8,
        price: u32,
        address: String,
        description: String,
        meter: u16,
        tax: u16,
        condominium: u16,
        parking: u8,
    ) -> (r: Self)
        ensures
            r@ == (PropertyView {
                image: image.deep_view(),
                model,
                category,
                bedroom,
                bathroom,
                price,
                address: address@,
                description: description@,
                meter,
                tax,
                condominium,
                parking,
            }),
    {
        Property {
            image,
            model,
            category,
            bedroom,
            bathroom,
            price,
            address,
            description,
            meter,
            tax,
            condominium,
            parking,
        }
    }

    pub fn image(&self) -> (r: &Vec<String>)
        ensures
            r.deep_view() == self@.image,
    {
        &self.image
    }

    /// Replaces the photos; every other field stays as it was.
    pub fn set_image(&mut self, image: Vec<String>)
        ensures
            final(self)@ == (PropertyView { image: image.deep_view(), ..old(self)@ }),
    {
        self.image = image
    }

    pub fn model(&self) -> (r: &Model)
        ensures
            *r == self@.model,
    {
        &self.model
    }

    pub fn category(&self) -> (r: &Category)
        ensures
            *r == self@.category,
    {
        &self.category
    }

    pub fn bedroom(&self) -> (r: u8)
        ensures
            r == self@.bedroom,
    {
        self.bedroom
    }

    pub fn bathroom(&self) -> (r: u8)
        ensures
            r == self@.bathroom,
    {
        self.bathroom
    }

    pub fn price(&self) -> (r: u32)
        ensures
            r == self@.price,
    {
        self.price
    }

    pub fn address(&self) -> (r: &String)
        ensures
            r@ == self@.address,
    {
        &self.address
    }

    pub fn description(&self) -> (r: &String)
        ensures
            r@ == self@.description,
    {
        &self.description
    }

    pub fn meter(&self) -> (r: u16)
        ensures
            r == self@.meter,
    {
        self.meter
    }

    pub fn tax(&self) -> (r: u16)
        ensures
            r == self@.tax,
    {
        self.tax
    }

    pub fn condominium(&self) -> (r: u16)
        ensures
            r == self@.condominium,
    {
        self.condominium
    }

    pub fn parking(&self) -> (r: u8)
        ensures
            r == self@.parking,
    {
        self.parking
    }
}

/// The locators of the property form's fields, one per field.
#[derive(Clone, Debug)]
pub struct PropertyXPath {
    pub image: String,
    pub model: String,
    pub category: String,
    pub bedroom: String,
    pub bathroom: String,
    pub price: String,
    pub address: String,
    pub description: String,
    pub meter: String,
    pub tax: String,
    pub condominium: String,
    pub parking: String,
}

impl PropertyXPath {
    pub fn new(
        image: String,
        model: String,
        category: String,
        bedroom: String,
        bathroom: String,
        price: String,
        address: String,
        description: String,
        meter: String,
        tax: String,
        condominium: String,
        parking: String,
    ) -> (r: Self)
        ensures
            r.image == image,
            r.model == model,
            r.category == category,
            r.bedroom == bedroom,
            r.bathroom == bathroom,
            r.price == price,
            r.address == address,
            r.description == description,
            r.meter == meter,
            r.tax == tax,
            r.condominium == condominium,
            r.parking == parking,
    {
        PropertyXPath {
            image,
            model,
            category,
            bedroom,
            bathroom,
            price,
            address,
            description,
            meter,
            tax,
            condominium,
            parking,
        }
    }
}

} // verus!
