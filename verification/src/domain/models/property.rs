//! The choices a property listing offers, and the Portuguese labels that the
//! marketplace form shows for them.

use vstd::prelude::*;

verus! {

/// The kind of home on offer.
#[derive(Debug, Clone, Copy, PartialEq, Eq, Structural)]
pub enum Category {
    Apartment,
    House,
}

impl Category {
    /// The label of this category in the marketplace form.
    pub open spec fn label(self) -> Seq<char> {
        match self {
            Category::Apartment => "Apartamento"@,
            Category::House => "Casa"@,
        }
    }

    pub fn transform(&self) -> (r: &'static str)
        ensures
            r@ == self.label(),
    {
        match self {
            Category::Apartment => "Apartamento",
            Category::House => "Casa",
        }
    }
}

/// Whether the home is for sale or for rent.
#[derive(Debug, Clone, Copy, PartialEq, Eq, Structural)]
pub enum Model {
    Sale,
    Rent,
}

impl Model {
    /// The label of this listing type in the marketplace form.
    pub open spec fn label(self) -> Seq<char> {
        match self {
            Model::Sale => "À venda"@,
            Model::Rent => "Aluguel"@,
        }
    }

    pub fn transform(&self) -> (r: &'static str)
        ensures
            r@ == self.label(),
    {
        match self {
            Model::Sale => "À venda",
            Model::Rent => "Aluguel",
        }
    }
}



/// Distinct choices have distinct labels, so a label names one choice.
pub proof fn lemma_category_labels_distinct(a: Category, b: Category)
    ensures
        a.label() == b.label() ==> a == b,
{
    reveal_strlit("Apartamento");
    reveal_strlit("Casa");
    match (a, b) {
        (Category::Apartment, Category::House) => {
            assert(Category::Apartment.label().len() != Category::House.label().len());
        },
        (Category::House, Category::Apartment) => {
            assert(Category::House.label().len() != Category::Apartment.label().len());
        },
        _ => {},
    }
}

/// Distinct choices have distinct labels, so a label names one choice.
pub proof fn lemma_model_labels_distinct(a: Model, b: Model)
    ensures
        a.label() == b.label() ==> a == b,
{
    reveal_strlit("À venda");
    reveal_strlit("Aluguel");
    match (a, b) {
        (Model::Sale, Model::Rent) => {
            assert(Model::Sale.label()[0] != Model::Rent.label()[0]);
        },
        (Model::Rent, Model::Sale) => {
            assert(Model::Rent.label()[0] != Model::Sale.label()[0]);
        },
        _ => {},
    }
}

} // verus!
