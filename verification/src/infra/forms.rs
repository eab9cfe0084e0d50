//! The marketplace forms of a property and of a vehicle, as the ordered list
//! of fields that the browser fills in.

use vstd::prelude::*;
use crate::domain::property::{Property, PropertyView};
use crate::domain::vehicle::{Vehicle, VehicleView};
use crate::domain::models::vehicle::Category as VehicleCategory;
use crate::domain::error::DomainError;
use crate::text::{decimal, decimal_string};

verus! {

broadcast use vstd::string::group_string_axioms;

pub const PROPERTY_MODEL_DROPDOWN: &'static str = "//label[@role='combobox'][contains(., 'venda ou locação') or contains(., 'Home for sale or rent') or contains(., 'Home for sale') or contains(., 'Property for rent') or contains(., 'Property for sale') or contains(., 'Listing type') or contains(., 'Alquiler')]";

pub const PROPERTY_CATEGORY_DROPDOWN: &'static str = "//label[@role='combobox'][contains(., 'Tipo de imóvel') or contains(., 'Home type') or contains(., 'Property type') or contains(., 'Tipo de propiedad')]";

pub const PROPERTY_PARKING_DROPDOWN: &'static str = "//label[@role='combobox'][contains(., 'Vagas de estacionamento') or contains(., 'Parking spaces') or contains(., 'Parking') or contains(., 'Plazas de aparcamiento') or contains(., 'Estacionamiento')]";

pub const PROPERTY_BEDROOM_INPUT: &'static str = "//span[contains(., 'Número de quartos') or contains(., 'Number of bedrooms') or contains(., 'Bedrooms') or contains(., 'Habitaciones') or contains(., 'Quartos')]/following::input[1]";

pub const PROPERTY_BATHROOM_INPUT: &'static str = "//span[contains(., 'Número de banheiros') or contains(., 'Number of bathrooms') or contains(., 'Bathrooms') or contains(., 'Baños') or contains(., 'Banheiros')]/following::input[1]";

pub const PROPERTY_PRICE_INPUT: &'static str = "//span[contains(., 'Preço') or contains(., 'Price') or contains(., 'Precio')]/following::input[1]";

pub const PROPERTY_ADDRESS_INPUT: &'static str = "//input[@role='combobox'][@aria-autocomplete='list'][not(contains(@aria-label, 'Pesquisar'))][not(contains(@aria-label, 'Search'))]";

pub const PROPERTY_DESCRIPTION_TEXTAREA: &'static str = "//span[contains(., 'Descrição do imóvel') or contains(., 'Descrição') or contains(., 'Property description') or contains(., 'Description') or contains(., 'Descripción')]/following::textarea[1]";

pub const PROPERTY_METER_INPUT: &'static str = "//span[contains(., 'Metros quadrados') or contains(., 'Área útil') or contains(., 'Square feet') or contains(., 'Square meters') or contains(., 'Metros cuadrados')]/following::input[1]";

pub const PROPERTY_TAX_INPUT: &'static str = "//span[contains(., 'Imposto') or contains(., 'Tax') or contains(., 'Impuesto')]/following::input[1]";

pub const PROPERTY_CONDOMINIUM_INPUT: &'static str = "//span[contains(., 'Condomínio') or contains(., 'Condo') or contains(., 'HOA fee') or contains(., 'HOA') or contains(., 'Condominio')]/following::input[1]";

pub const VEHICLE_TYPE_DROPDOWN: &'static str = "//label[@role='combobox'][contains(., 'Tipo de veículo') or contains(., 'Vehicle type') or contains(., 'Type') or contains(., 'Tipo de vehículo')]";

pub const VEHICLE_YEAR_DROPDOWN: &'static str = "//label[@role='combobox'][contains(., 'Ano') or contains(., 'Year') or contains(., 'Año')]";

pub const VEHICLE_MAKE_DROPDOWN: &'static str = "//label[@role='combobox'][contains(., 'Fabricante') or contains(., 'Make') or contains(., 'Marca')]";

pub const VEHICLE_MAKE_INPUT: &'static str = "//span[contains(., 'Fabricante') or contains(., 'Make') or contains(., 'Marca')]/following::input[1]";

pub const VEHICLE_MODEL_INPUT: &'static str = "//span[contains(., 'Modelo') or contains(., 'Model')]/following::input[1]";

pub const VEHICLE_MILEAGE_INPUT: &'static str = "//span[contains(., 'Quilometragem') or contains(., 'Mileage') or contains(., 'Kilometraje') or contains(., 'Odometer')]/following::input[1]";

pub const VEHICLE_PRICE_INPUT: &'static str = "//span[contains(., 'Preço') or contains(., 'Price') or contains(., 'Precio')]/following::input[1]";

pub const VEHICLE_BODYSTYLE_DROPDOWN: &'static str = "//label[@role='combobox'][contains(., 'Estilo da carroceria') or contains(., 'Body style') or contains(., 'Body Style') or contains(., 'Carrocería')]";

pub const VEHICLE_CONDITION_DROPDOWN: &'static str = "//label[@role='combobox'][contains(., 'Condição do veículo') or contains(., 'Condição') or contains(., 'Condition') or contains(., 'Condición')]";

pub const VEHICLE_FUEL_DROPDOWN: &'static str = "//label[@role='combobox'][contains(., 'Tipo de combustível') or contains(., 'Fuel type') or contains(., 'Fuel') or contains(., 'Combustible')]";

pub const VEHICLE_LOCATION_INPUT: &'static str = "//input[@role='combobox'][@aria-label='Localização' or @aria-label='Location' or @aria-label='Ubicación']";

pub const VEHICLE_DESCRIPTION_TEXTAREA: &'static str = "//span[contains(., 'Descrição') or contains(., 'Description') or contains(., 'Descripción')]/following::textarea[1]";

pub const PROPERTY_PHOTO_INPUT: &'static str = "input[type='file']";

pub const VEHICLE_PHOTO_INPUT: &'static str = "input[type='file'][accept*='image']";

pub const PROPERTY_FORM_URL: &'static str = "https://www.facebook.com/marketplace/create/rental";

pub const VEHICLE_FORM_URL: &'static str = "https://www.facebook.com/marketplace/create/vehicle";

/// How a field is filled in.
#[derive(Clone, Copy, Debug, PartialEq, Eq, Structural)]
pub enum FieldAction {
    /// Open the dropdown and click the option with the value's label.
    Select,
    /// Focus the field and type the value.
    Type,
    /// Type the value, wait for the suggestions, and pick the first one.
    TypeAndPickSuggestion,
}

/// One field of a form and what goes into it.
#[derive(Clone, Debug)]
pub struct FormStep {
    pub action: FieldAction,
    pub xpath: &'static str,
    pub value: String,
    /// An optional field is filled only when the page shows it, and a failure
    /// on it is ignored; a failure on any other field ends the publication.
    pub optional: bool,
    /// How long to wait once the field is filled.
    pub pause_after_ms: u64,
}

/// The contents of a `FormStep`, its texts taken as characters.
pub struct FormStepView {
    pub action: FieldAction,
    pub xpath: Seq<char>,
    pub value: Seq<char>,
    pub optional: bool,
    pub pause_after_ms: u64,
}

impl View for FormStep {
    type V = FormStepView;

    open spec fn view(&self) -> FormStepView {
        FormStepView {
            action: self.action,
            xpath: self.xpath@,
            value: self.value@,
            optional: self.optional,
            pause_after_ms: self.pause_after_ms,
        }
    }
}

pub open spec fn step_view(
    action: FieldAction,
    xpath: Seq<char>,
    value: Seq<char>,
    optional: bool,
    pause_after_ms: u64,
) -> FormStepView {
    FormStepView { action, xpath, value, optional, pause_after_ms }
}

fn form_step(
    action: FieldAction,
    xpath: &'static str,
    value: String,
    optional: bool,
    pause_after_ms: u64,
) -> (r: FormStep)
    ensures
        r@ == step_view(action, xpath@, value@, optional, pause_after_ms),
{
    FormStep { action, xpath, value, optional, pause_after_ms }
}

/// A marketplace form: where it is, where its photos go, and its fields in
/// the order they are filled in.
#[derive(Clone, Debug)]
pub struct ListingForm {
    pub url: &'static str,
    pub photo_selector: &'static str,
    pub steps: Vec<FormStep>,
}

/// The contents of a `ListingForm`.
pub struct ListingFormView {
    pub url: Seq<char>,
    pub photo_selector: Seq<char>,
    pub steps: Seq<FormStepView>,
}

impl View for ListingForm {
    type V = ListingFormView;

    open spec fn view(&self) -> ListingFormView {
        ListingFormView {
            url: self.url@,
            photo_selector: self.photo_selector@,
            steps: self.steps@.map_values(|s: FormStep| s@),
        }
    }
}

/// The property form filled in with `p`.
pub open spec fn property_form_of(p: PropertyView) -> ListingFormView {
    ListingFormView {
        url: PROPERTY_FORM_URL@,
        photo_selector: PROPERTY_PHOTO_INPUT@,
        steps: seq![
            step_view(FieldAction::Select, PROPERTY_MODEL_DROPDOWN@, p.model.label(), false, 0),
            step_view(FieldAction::Select, PROPERTY_CATEGORY_DROPDOWN@, p.category.label(), false, 0),
            step_view(FieldAction::Type, PROPERTY_BEDROOM_INPUT@, decimal(p.bedroom as nat), false, 0),
            step_view(FieldAction::Type, PROPERTY_BATHROOM_INPUT@, decimal(p.bathroom as nat), false, 0),
            step_view(FieldAction::Type, PROPERTY_PRICE_INPUT@, decimal(p.price as nat), false, 0),
            step_view(FieldAction::TypeAndPickSuggestion, PROPERTY_ADDRESS_INPUT@, p.address, false, 0),
            step_view(FieldAction::Type, PROPERTY_DESCRIPTION_TEXTAREA@, p.description, false, 0),
            step_view(FieldAction::Type, PROPERTY_METER_INPUT@, decimal(p.meter as nat), false, 0),
            step_view(FieldAction::Type, PROPERTY_TAX_INPUT@, decimal(p.tax as nat), false, 0),
            step_view(FieldAction::Type, PROPERTY_CONDOMINIUM_INPUT@, decimal(p.condominium as nat), false, 0),
            step_view(FieldAction::Select, PROPERTY_PARKING_DROPDOWN@, decimal(p.parking as nat), false, 0),
        ],
    }
}

/// The form that publishes `entity`: listing type and home type picked from
/// their dropdowns, the numbers typed in decimal, the address typed and its
/// first suggestion picked, and the parking spaces picked last.
pub fn property_form(entity: &Property) -> (r: ListingForm)
    ensures
        r@ == property_form_of(entity@),
        fills(r@, FieldAction::Select, PROPERTY_MODEL_DROPDOWN@, entity@.model.label()),
        fills(r@, FieldAction::Select, PROPERTY_CATEGORY_DROPDOWN@, entity@.category.label()),
        fills(r@, FieldAction::Type, PROPERTY_BEDROOM_INPUT@, decimal(entity@.bedroom as nat)),
        fills(r@, FieldAction::Type, PROPERTY_BATHROOM_INPUT@, decimal(entity@.bathroom as nat)),
        fills(r@, FieldAction::Type, PROPERTY_PRICE_INPUT@, decimal(entity@.price as nat)),
        fills(r@, FieldAction::TypeAndPickSuggestion, PROPERTY_ADDRESS_INPUT@, entity@.address),
        fills(r@, FieldAction::Type, PROPERTY_DESCRIPTION_TEXTAREA@, entity@.description),
        fills(r@, FieldAction::Type, PROPERTY_METER_INPUT@, decimal(entity@.meter as nat)),
        fills(r@, FieldAction::Type, PROPERTY_TAX_INPUT@, decimal(entity@.tax as nat)),
        fills(r@, FieldAction::Type, PROPERTY_CONDOMINIUM_INPUT@, decimal(entity@.condominium as nat)),
        fills(r@, FieldAction::Select, PROPERTY_PARKING_DROPDOWN@, decimal(entity@.parking as nat)),
{
    proof { lemma_property_form_fields(entity@); }
    let mut steps: Vec<FormStep> = Vec::new();
    steps.push(form_step(FieldAction::Select, PROPERTY_MODEL_DROPDOWN, String::from_str(entity.model().transform()), false, 0));
    steps.push(form_step(FieldAction::Select, PROPERTY_CATEGORY_DROPDOWN, String::from_str(entity.category().transform()), false, 0));
    steps.push(form_step(FieldAction::Type, PROPERTY_BEDROOM_INPUT, decimal_string(entity.bedroom() as u64), false, 0));
    steps.push(form_step(FieldAction::Type, PROPERTY_BATHROOM_INPUT, decimal_string(entity.bathroom() as u64), false, 0));
    steps.push(form_step(FieldAction::Type, PROPERTY_PRICE_INPUT, decimal_string(entity.price() as u64), false, 0));
    steps.push(form_step(FieldAction::TypeAndPickSuggestion, PROPERTY_ADDRESS_INPUT, entity.address().clone(), false, 0));
    steps.push(form_step(FieldAction::Type, PROPERTY_DESCRIPTION_TEXTAREA, entity.description().clone(), false, 0));
    steps.push(form_step(FieldAction::Type, PROPERTY_METER_INPUT, decimal_string(entity.meter() as u64), false, 0));
    steps.push(form_step(FieldAction::Type, PROPERTY_TAX_INPUT, decimal_string(entity.tax() as u64), false, 0));
    steps.push(form_step(FieldAction::Type, PROPERTY_CONDOMINIUM_INPUT, decimal_string(entity.condominium() as u64), false, 0));
    steps.push(form_step(FieldAction::Select, PROPERTY_PARKING_DROPDOWN, decimal_string(entity.parking() as u64), false, 0));
    let r = ListingForm { url: PROPERTY_FORM_URL, photo_selector: PROPERTY_PHOTO_INPUT, steps };
    assert(r@.steps =~= property_form_of(entity@).steps);
    r
}

/// The vehicle types whose maker is picked from a dropdown; for the others the
/// maker is typed in.
pub open spec fn make_from_dropdown(c: VehicleCategory) -> bool {
    c == VehicleCategory::CarOrPickup || c == VehicleCategory::Motorcycle
        || c == VehicleCategory::CommercialOrIndustrial
}

/// The maker field of the vehicle form for `v`.
pub open spec fn make_step(v: VehicleView) -> FormStepView {
    if make_from_dropdown(v.category) {
        step_view(FieldAction::Select, VEHICLE_MAKE_DROPDOWN@, v.manufacturer.label(), false, 0)
    } else {
        step_view(FieldAction::Type, VEHICLE_MAKE_INPUT@, v.manufacturer.label(), false, 0)
    }
}

/// The vehicle form filled in with `v`.
pub open spec fn vehicle_form_of(v: VehicleView) -> ListingFormView {
    ListingFormView {
        url: VEHICLE_FORM_URL@,
        photo_selector: VEHICLE_PHOTO_INPUT@,
        steps: seq![
            step_view(FieldAction::Select, VEHICLE_TYPE_DROPDOWN@, v.category.label(), false, 2000),
            step_view(FieldAction::Select, VEHICLE_YEAR_DROPDOWN@, decimal(v.year as nat), false, 0),
            make_step(v),
            step_view(FieldAction::Type, VEHICLE_MODEL_INPUT@, v.model, false, 0),
            step_view(FieldAction::Type, VEHICLE_MILEAGE_INPUT@, decimal(v.mileage as nat), true, 0),
            step_view(FieldAction::Select, VEHICLE_BODYSTYLE_DROPDOWN@, v.bodystyle.label(), true, 0),
            step_view(FieldAction::Select, VEHICLE_CONDITION_DROPDOWN@, v.condition.label(), true, 0),
            step_view(FieldAction::Select, VEHICLE_FUEL_DROPDOWN@, v.fuel.label(), true, 0),
            step_view(FieldAction::Type, VEHICLE_PRICE_INPUT@, decimal(v.price as nat), false, 0),
            step_view(FieldAction::TypeAndPickSuggestion, VEHICLE_LOCATION_INPUT@, v.address, false, 0),
            step_view(FieldAction::Type, VEHICLE_DESCRIPTION_TEXTAREA@, v.description, true, 0),
        ],
    }
}

/// The form that publishes `entity`: vehicle type first (with a pause while
/// the form adapts to it), then the year, the maker (from a dropdown for cars,
/// motorcycles and commercial vehicles, typed for the rest), the model, the
/// mileage, body style, condition and fuel where the form shows them, the
/// price, the location with its first suggestion, and the description where
/// shown.
pub fn vehicle_form(entity: &Vehicle) -> (r: ListingForm)
    ensures
        r@ == vehicle_form_of(entity@),
        fills(r@, FieldAction::Select, VEHICLE_TYPE_DROPDOWN@, entity@.category.label()),
        fills(r@, FieldAction::Select, VEHICLE_YEAR_DROPDOWN@, decimal(entity@.year as nat)),
        fills(r@, FieldAction::Type, VEHICLE_MODEL_INPUT@, entity@.model),
        fills(r@, FieldAction::Type, VEHICLE_MILEAGE_INPUT@, decimal(entity@.mileage as nat)),
        fills(r@, FieldAction::Select, VEHICLE_BODYSTYLE_DROPDOWN@, entity@.bodystyle.label()),
        fills(r@, FieldAction::Select, VEHICLE_CONDITION_DROPDOWN@, entity@.condition.label()),
        fills(r@, FieldAction::Select, VEHICLE_FUEL_DROPDOWN@, entity@.fuel.label()),
        fills(r@, FieldAction::Type, VEHICLE_PRICE_INPUT@, decimal(entity@.price as nat)),
        fills(r@, FieldAction::TypeAndPickSuggestion, VEHICLE_LOCATION_INPUT@, entity@.address),
        fills(r@, FieldAction::Type, VEHICLE_DESCRIPTION_TEXTAREA@, entity@.description),
        make_from_dropdown(entity@.category) ==> fills(r@, FieldAction::Select, VEHICLE_MAKE_DROPDOWN@, entity@.manufacturer.label()),
        !make_from_dropdown(entity@.category) ==> fills(r@, FieldAction::Type, VEHICLE_MAKE_INPUT@, entity@.manufacturer.label()),
{
    proof { lemma_vehicle_form_fields(entity@); }
    let mut steps: Vec<FormStep> = Vec::new();
    steps.push(form_step(FieldAction::Select, VEHICLE_TYPE_DROPDOWN, String::from_str(entity.category().transform()), false, 2000));
    steps.push(form_step(FieldAction::Select, VEHICLE_YEAR_DROPDOWN, decimal_string(entity.year() as u64), false, 0));
    let from_dropdown = match entity.category() {
        VehicleCategory::CarOrPickup | VehicleCategory::Motorcycle | VehicleCategory::CommercialOrIndustrial => true,
        _ => false,
    };
    if from_dropdown {
        steps.push(form_step(FieldAction::Select, VEHICLE_MAKE_DROPDOWN, String::from_str(entity.manufacturer().transform()), false, 0));
    } else {
        steps.push(form_step(FieldAction::Type, VEHICLE_MAKE_INPUT, String::from_str(entity.manufacturer().transform()), false, 0));
    }
    steps.push(form_step(FieldAction::Type, VEHICLE_MODEL_INPUT, entity.model().clone(), false, 0));
    steps.push(form_step(FieldAction::Type, VEHICLE_MILEAGE_INPUT, decimal_string(entity.mileage() as u64), true, 0));
    steps.push(form_step(FieldAction::Select, VEHICLE_BODYSTYLE_DROPDOWN, String::from_str(entity.bodystyle().transform()), true, 0));
    steps.push(form_step(FieldAction::Select, VEHICLE_CONDITION_DROPDOWN, String::from_str(entity.condition().transform()), true, 0));
    steps.push(form_step(FieldAction::Select, VEHICLE_FUEL_DROPDOWN, String::from_str(entity.fuel().transform()), true, 0));
    steps.push(form_step(FieldAction::Type, VEHICLE_PRICE_INPUT, decimal_string(entity.price() as u64), false, 0));
    steps.push(form_step(FieldAction::TypeAndPickSuggestion, VEHICLE_LOCATION_INPUT, entity.address().clone(), false, 0));
    steps.push(form_step(FieldAction::Type, VEHICLE_DESCRIPTION_TEXTAREA, entity.description().clone(), true, 0));
    let r = ListingForm { url: VEHICLE_FORM_URL, photo_selector: VEHICLE_PHOTO_INPUT, steps };
    assert(r@.steps =~= vehicle_form_of(entity@).steps);
    r
}


// ─── What each field of a form carries ───────────────────────────────────────

/// `form` has a field at `xpath`, and every step of it aimed at `xpath`
/// fills in `value` by `action`.
pub open spec fn fills(form: ListingFormView, action: FieldAction, xpath: Seq<char>, value: Seq<char>) -> bool {
    &&& exists|k: int| 0 <= k < form.steps.len() && (#[trigger] form.steps[k]).xpath == xpath
    &&& forall|k: int| 0 <= k < form.steps.len() && (#[trigger] form.steps[k]).xpath == xpath
        ==> form.steps[k].action == action && form.steps[k].value == value
}

/// Each field of the property form carries the listing's value of the same
/// name: the listing type and the home type picked by their labels, the
/// bedrooms, bathrooms, price, area, tax and condominium fee typed in
/// decimal, the address typed with its first suggestion picked, the
/// description typed, and the parking spaces picked; the form is the rental
/// form with its photo input.
pub proof fn lemma_property_form_fields(p: PropertyView)
    ensures
        property_form_of(p).url == PROPERTY_FORM_URL@,
        property_form_of(p).photo_selector == PROPERTY_PHOTO_INPUT@,
        fills(property_form_of(p), FieldAction::Select, PROPERTY_MODEL_DROPDOWN@, p.model.label()),
        fills(property_form_of(p), FieldAction::Select, PROPERTY_CATEGORY_DROPDOWN@, p.category.label()),
        fills(property_form_of(p), FieldAction::Type, PROPERTY_BEDROOM_INPUT@, decimal(p.bedroom as nat)),
        fills(property_form_of(p), FieldAction::Type, PROPERTY_BATHROOM_INPUT@, decimal(p.bathroom as nat)),
        fills(property_form_of(p), FieldAction::Type, PROPERTY_PRICE_INPUT@, decimal(p.price as nat)),
        fills(property_form_of(p), FieldAction::TypeAndPickSuggestion, PROPERTY_ADDRESS_INPUT@, p.address),
        fills(property_form_of(p), FieldAction::Type, PROPERTY_DESCRIPTION_TEXTAREA@, p.description),
        fills(property_form_of(p), FieldAction::Type, PROPERTY_METER_INPUT@, decimal(p.meter as nat)),
        fills(property_form_of(p), FieldAction::Type, PROPERTY_TAX_INPUT@, decimal(p.tax as nat)),
        fills(property_form_of(p), FieldAction::Type, PROPERTY_CONDOMINIUM_INPUT@, decimal(p.condominium as nat)),
        fills(property_form_of(p), FieldAction::Select, PROPERTY_PARKING_DROPDOWN@, decimal(p.parking as nat)),
{
    let f = property_form_of(p);
    reveal_strlit("//label[@role='combobox'][contains(., 'venda ou locação') or contains(., 'Home for sale or rent') or contains(., 'Home for sale') or contains(., 'Property for rent') or contains(., 'Property for sale') or contains(., 'Listing type') or contains(., 'Alquiler')]");
    reveal_strlit("//label[@role='combobox'][contains(., 'Tipo de imóvel') or contains(., 'Home type') or contains(., 'Property type') or contains(., 'Tipo de propiedad')]");
    reveal_strlit("//span[contains(., 'Número de quartos') or contains(., 'Number of bedrooms') or contains(., 'Bedrooms') or contains(., 'Habitaciones') or contains(., 'Quartos')]/following::input[1]");
    reveal_strlit("//span[contains(., 'Número de banheiros') or contains(., 'Number of bathrooms') or contains(., 'Bathrooms') or contains(., 'Baños') or contains(., 'Banheiros')]/following::input[1]");
    reveal_strlit("//span[contains(., 'Preço') or contains(., 'Price') or contains(., 'Precio')]/following::input[1]");
    reveal_strlit("//input[@role='combobox'][@aria-autocomplete='list'][not(contains(@aria-label, 'Pesquisar'))][not(contains(@aria-label, 'Search'))]");
    reveal_strlit("//span[contains(., 'Descrição do imóvel') or contains(., 'Descrição') or contains(., 'Property description') or contains(., 'Description') or contains(., 'Descripción')]/following::textarea[1]");
    reveal_strlit("//span[contains(., 'Metros quadrados') or contains(., 'Área útil') or contains(., 'Square feet') or contains(., 'Square meters') or contains(., 'Metros cuadrados')]/following::input[1]");
    reveal_strlit("//span[contains(., 'Imposto') or contains(., 'Tax') or contains(., 'Impuesto')]/following::input[1]");
    reveal_strlit("//span[contains(., 'Condomínio') or contains(., 'Condo') or contains(., 'HOA fee') or contains(., 'HOA') or contains(., 'Condominio')]/following::input[1]");
    reveal_strlit("//label[@role='combobox'][contains(., 'Vagas de estacionamento') or contains(., 'Parking spaces') or contains(., 'Parking') or contains(., 'Plazas de aparcamiento') or contains(., 'Estacionamiento')]");
    assert forall|k: int| 0 <= k < f.steps.len() implies #[trigger] f.steps[k] == f.steps[k] by {}
    assert(f.steps[0].xpath == PROPERTY_MODEL_DROPDOWN@);
    assert(f.steps[1].xpath == PROPERTY_CATEGORY_DROPDOWN@);
    assert(f.steps[2].xpath == PROPERTY_BEDROOM_INPUT@);
    assert(f.steps[3].xpath == PROPERTY_BATHROOM_INPUT@);
    assert(f.steps[4].xpath == PROPERTY_PRICE_INPUT@);
    assert(f.steps[5].xpath == PROPERTY_ADDRESS_INPUT@);
    assert(f.steps[6].xpath == PROPERTY_DESCRIPTION_TEXTAREA@);
    assert(f.steps[7].xpath == PROPERTY_METER_INPUT@);
    assert(f.steps[8].xpath == PROPERTY_TAX_INPUT@);
    assert(f.steps[9].xpath == PROPERTY_CONDOMINIUM_INPUT@);
    assert(f.steps[10].xpath == PROPERTY_PARKING_DROPDOWN@);
}

/// Each field of the vehicle form carries the vehicle's value of the same
/// name: the vehicle type, year, body style, condition and fuel picked by
/// their labels, the maker picked (for cars, motorcycles and commercial
/// vehicles) or typed, the model typed, the mileage and price typed in
/// decimal, the location typed with its first suggestion picked, and the
/// description typed; the form is the vehicle form with its photo input.
pub proof fn lemma_vehicle_form_fields(v: VehicleView)
    ensures
        vehicle_form_of(v).url == VEHICLE_FORM_URL@,
        vehicle_form_of(v).photo_selector == VEHICLE_PHOTO_INPUT@,
        fills(vehicle_form_of(v), FieldAction::Select, VEHICLE_TYPE_DROPDOWN@, v.category.label()),
        fills(vehicle_form_of(v), FieldAction::Select, VEHICLE_YEAR_DROPDOWN@, decimal(v.year as nat)),
        fills(vehicle_form_of(v), FieldAction::Type, VEHICLE_MODEL_INPUT@, v.model),
        fills(vehicle_form_of(v), FieldAction::Type, VEHICLE_MILEAGE_INPUT@, decimal(v.mileage as nat)),
        fills(vehicle_form_of(v), FieldAction::Select, VEHICLE_BODYSTYLE_DROPDOWN@, v.bodystyle.label()),
        fills(vehicle_form_of(v), FieldAction::Select, VEHICLE_CONDITION_DROPDOWN@, v.condition.label()),
        fills(vehicle_form_of(v), FieldAction::Select, VEHICLE_FUEL_DROPDOWN@, v.fuel.label()),
        fills(vehicle_form_of(v), FieldAction::Type, VEHICLE_PRICE_INPUT@, decimal(v.price as nat)),
        fills(vehicle_form_of(v), FieldAction::TypeAndPickSuggestion, VEHICLE_LOCATION_INPUT@, v.address),
        fills(vehicle_form_of(v), FieldAction::Type, VEHICLE_DESCRIPTION_TEXTAREA@, v.description),
        make_from_dropdown(v.category) ==> fills(vehicle_form_of(v), FieldAction::Select, VEHICLE_MAKE_DROPDOWN@, v.manufacturer.label()),
        !make_from_dropdown(v.category) ==> fills(vehicle_form_of(v), FieldAction::Type, VEHICLE_MAKE_INPUT@, v.manufacturer.label()),
{
    let f = vehicle_form_of(v);
    reveal_strlit("//label[@role='combobox'][contains(., 'Tipo de veículo') or contains(., 'Vehicle type') or contains(., 'Type') or contains(., 'Tipo de vehículo')]");
    reveal_strlit("//label[@role='combobox'][contains(., 'Ano') or contains(., 'Year') or contains(., 'Año')]");
    reveal_strlit("//span[contains(., 'Modelo') or contains(., 'Model')]/following::input[1]");
    reveal_strlit("//span[contains(., 'Quilometragem') or contains(., 'Mileage') or contains(., 'Kilometraje') or contains(., 'Odometer')]/following::input[1]");
    reveal_strlit("//label[@role='combobox'][contains(., 'Estilo da carroceria') or contains(., 'Body style') or contains(., 'Body Style') or contains(., 'Carrocería')]");
    reveal_strlit("//label[@role='combobox'][contains(., 'Condição do veículo') or contains(., 'Condição') or contains(., 'Condition') or contains(., 'Condición')]");
    reveal_strlit("//label[@role='combobox'][contains(., 'Tipo de combustível') or contains(., 'Fuel type') or contains(., 'Fuel') or contains(., 'Combustible')]");
    reveal_strlit("//span[contains(., 'Preço') or contains(., 'Price') or contains(., 'Precio')]/following::input[1]");
    reveal_strlit("//input[@role='combobox'][@aria-label='Localização' or @aria-label='Location' or @aria-label='Ubicación']");
    reveal_strlit("//span[contains(., 'Descrição') or contains(., 'Description') or contains(., 'Descripción')]/following::textarea[1]");
    reveal_strlit("//label[@role='combobox'][contains(., 'Fabricante') or contains(., 'Make') or contains(., 'Marca')]");
    reveal_strlit("//span[contains(., 'Fabricante') or contains(., 'Make') or contains(., 'Marca')]/following::input[1]");
    assert(f.steps[0].xpath == VEHICLE_TYPE_DROPDOWN@);
    assert(f.steps[1].xpath == VEHICLE_YEAR_DROPDOWN@);
    assert(f.steps[3].xpath == VEHICLE_MODEL_INPUT@);
    assert(f.steps[4].xpath == VEHICLE_MILEAGE_INPUT@);
    assert(f.steps[5].xpath == VEHICLE_BODYSTYLE_DROPDOWN@);
    assert(f.steps[6].xpath == VEHICLE_CONDITION_DROPDOWN@);
    assert(f.steps[7].xpath == VEHICLE_FUEL_DROPDOWN@);
    assert(f.steps[8].xpath == VEHICLE_PRICE_INPUT@);
    assert(f.steps[9].xpath == VEHICLE_LOCATION_INPUT@);
    assert(f.steps[10].xpath == VEHICLE_DESCRIPTION_TEXTAREA@);
    assert(f.steps[2] == make_step(v));
    assert forall|k: int| 0 <= k < f.steps.len() implies #[trigger] f.steps[k] == f.steps[k] by {}
}

// ─── Filling in a form ───────────────────────────────────────────────────────

/// What the browser does next while filling in a form; each command first
/// waits `pause_ms` milliseconds.
#[derive(Debug)]
pub enum FillCommand {
    /// Check whether the page shows the optional field at `index`.
    Probe { index: usize, pause_ms: u64 },
    /// Fill in the field at `index`.
    Fill { index: usize, pause_ms: u64 },
    /// The filling is over, with this answer.
    Finish(Result<(), DomainError>),
}

/// The command for the field at `index`, after a wait of `pause_ms`: past the
/// last field the filling is over; an optional field is probed first; any
/// other field is filled.
pub open spec fn command_at(steps: Seq<FormStepView>, index: int, pause_ms: u64) -> FillCommand {
    if index >= steps.len() {
        FillCommand::Finish(Ok(()))
    } else if steps[index].optional {
        FillCommand::Probe { index: index as usize, pause_ms }
    } else {
        FillCommand::Fill { index: index as usize, pause_ms }
    }
}

fn command_for(form: &ListingForm, index: usize, pause_ms: u64) -> (r: FillCommand)
    requires
        index <= form@.steps.len(),
    ensures
        r == command_at(form@.steps, index as int, pause_ms),
{
    if index >= form.steps.len() {
        FillCommand::Finish(Ok(()))
    } else if form.steps[index].optional {
        FillCommand::Probe { index, pause_ms }
    } else {
        FillCommand::Fill { index, pause_ms }
    }
}

/// The first command of filling in `form`.
pub fn start_filling(form: &ListingForm) -> (r: FillCommand)
    ensures
        r == command_at(form@.steps, 0, 0),
{
    command_for(form, 0, 0)
}

/// After probing the optional field at `index`: a field the page shows is
/// filled in at once; one it does not show is skipped.
pub fn after_probe(form: &ListingForm, index: usize, present: bool) -> (r: FillCommand)
    requires
        index < form@.steps.len(),
    ensures
        present ==> r == (FillCommand::Fill { index, pause_ms: 0 }),
        !present ==> r == command_at(form@.steps, index + 1, form@.steps[index as int].pause_after_ms),
{
    let count = form.steps.len();
    assert(index < count);
    if present {
        FillCommand::Fill { index, pause_ms: 0 }
    } else {
        command_for(form, index + 1, form.steps[index].pause_after_ms)
    }
}

/// After filling in the field at `index`: a failure on a field that is not
/// optional ends the filling with that failure; otherwise, failure or not,
/// the filling goes on with the next field after the field's pause.
pub fn after_fill(form: &ListingForm, index: usize, result: Result<(), DomainError>) -> (r: FillCommand)
    requires
        index < form@.steps.len(),
    ensures
        !form@.steps[index as int].optional && result is Err ==> r == FillCommand::Finish(result),
        form@.steps[index as int].optional || result is Ok
            ==> r == command_at(form@.steps, index + 1, form@.steps[index as int].pause_after_ms),
{
    let count = form.steps.len();
    assert(index < count);
    if !form.steps[index].optional && result.is_err() {
        FillCommand::Finish(result)
    } else {
        command_for(form, index + 1, form.steps[index].pause_after_ms)
    }
}

} // verus!
