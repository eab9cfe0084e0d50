//! What the locators of dropdown options pick. A locator matches an option
//! whose text holds one of its terms; for each choice of each dropdown of the
//! forms, the locator reaches the option of that choice when the marketplace
//! shows it in English, and none of its terms occurs in the Portuguese or
//! English name of another choice of the same dropdown. The exceptions are
//! stated with the laws: a Portuguese label that also occurs in a longer one
//! ("Híbrido" in "Híbrido plug-in", "bom" in "Muito bom"), and the pickup body
//! style, whose locator knows only its Portuguese label.

use vstd::prelude::*;
use crate::domain::models::property::{Category as HomeCategory, Model};
use crate::domain::models::vehicle::{BodyStyle, Category as VehicleCategory, Condition, Fuel};
use crate::infra::marketplace::{option_synonyms, option_terms};
use crate::text::{lemma_absent, lemma_occurs_from_start, matches_from, occurs_at, occurs_from, seq_contains};

verus! {

/// The name under which the marketplace shows each fuel in English.
pub open spec fn fuel_english(c: Fuel) -> Seq<char> {
    match c {
        Fuel::Diesel => "Diesel"@,
        Fuel::Electric => "Electric"@,
        Fuel::Gasoline => "Gasoline"@,
        Fuel::Flex => "Flex"@,
        Fuel::Hybrid => "Hybrid"@,
        Fuel::PlugInHybrid => "Plug-in hybrid"@,
        Fuel::Other => "Other"@,
    }
}

/// The terms of the locator of each fuel.
proof fn lemma_fuel_terms(c: Fuel)
    ensures
        option_terms(c.label()) == (match c {
            Fuel::Diesel => seq!["Diesel"@, "Diesel"@],
            Fuel::Electric => seq!["Elétrico"@, "Electric"@],
            Fuel::Gasoline => seq!["Gasolina"@, "Gas"@, "Gasoline"@],
            Fuel::Flex => seq!["Flex"@, "Flex"@],
            Fuel::Hybrid => seq!["Híbrido"@, "Hybrid"@],
            Fuel::PlugInHybrid => seq!["Híbrido plug-in"@, "Plug-in hybrid"@],
            Fuel::Other => seq!["Outro"@, "Other"@],
        }),
{
    reveal_strlit("Aluguel");
    reveal_strlit("Apartamento");
    reveal_strlit("Barco");
    reveal_strlit("Bom");
    reveal_strlit("Carro compacto");
    reveal_strlit("Carro/picape");
    reveal_strlit("Casa");
    reveal_strlit("Casa geminada");
    reveal_strlit("Comercial/industrial");
    reveal_strlit("Conversível");
    reveal_strlit("Cupê");
    reveal_strlit("Diesel");
    reveal_strlit("Electric");
    reveal_strlit("Elétrico");
    reveal_strlit("Excelente");
    reveal_strlit("Flex");
    reveal_strlit("Gas");
    reveal_strlit("Gasolina");
    reveal_strlit("Gasoline");
    reveal_strlit("Hatch");
    reveal_strlit("Hybrid");
    reveal_strlit("Híbrido");
    reveal_strlit("Híbrido plug-in");
    reveal_strlit("Minivan");
    reveal_strlit("Motocicleta");
    reveal_strlit("Muito bom");
    reveal_strlit("Other");
    reveal_strlit("Outro");
    reveal_strlit("Plug-in hybrid");
    reveal_strlit("Razoável");
    reveal_strlit("Reboque");
    reveal_strlit("Ruim");
    reveal_strlit("SUV");
    reveal_strlit("Sedã");
    reveal_strlit("Station wagon");
    reveal_strlit("Trailer");
    reveal_strlit("Veículos para esportes");
    reveal_strlit("À venda");
    match c {
        Fuel::Diesel => {
            assert("Diesel"@.len() != "Casa"@.len());
            assert("Diesel"@.len() != "Apartamento"@.len());
            assert("Diesel"@.len() != "Casa geminada"@.len());
            assert("Diesel"@.len() != "À venda"@.len());
            assert("Diesel"@.len() != "Aluguel"@.len());
            assert("Diesel"@.len() != "Carro/picape"@.len());
            assert("Diesel"@.len() != "Motocicleta"@.len());
            assert("Diesel"@.len() != "Veículos para esportes"@.len());
            assert("Diesel"@.len() != "Trailer"@.len());
            assert("Diesel"@.len() != "Reboque"@.len());
            assert("Diesel"@.len() != "Barco"@.len());
            assert("Diesel"@.len() != "Comercial/industrial"@.len());
            assert("Diesel"@.len() != "Excelente"@.len());
            assert("Diesel"@.len() != "Muito bom"@.len());
            assert("Diesel"@.len() != "Bom"@.len());
            assert("Diesel"@.len() != "Razoável"@.len());
            assert("Diesel"@.len() != "Ruim"@.len());
            assert("Diesel"@.len() != "Gasolina"@.len());
            assert(option_synonyms("Diesel"@) =~= seq!["Diesel"@]);
        },
        Fuel::Electric => {
            assert("Elétrico"@.len() != "Casa"@.len());
            assert("Elétrico"@.len() != "Apartamento"@.len());
            assert("Elétrico"@.len() != "Casa geminada"@.len());
            assert("Elétrico"@.len() != "À venda"@.len());
            assert("Elétrico"@.len() != "Aluguel"@.len());
            assert("Elétrico"@.len() != "Carro/picape"@.len());
            assert("Elétrico"@.len() != "Motocicleta"@.len());
            assert("Elétrico"@.len() != "Veículos para esportes"@.len());
            assert("Elétrico"@.len() != "Trailer"@.len());
            assert("Elétrico"@.len() != "Reboque"@.len());
            assert("Elétrico"@.len() != "Barco"@.len());
            assert("Elétrico"@.len() != "Comercial/industrial"@.len());
            assert("Elétrico"@.len() != "Excelente"@.len());
            assert("Elétrico"@.len() != "Muito bom"@.len());
            assert("Elétrico"@.len() != "Bom"@.len());
            assert("Elétrico"@[0] != "Razoável"@[0]);
            assert("Elétrico"@.len() != "Ruim"@.len());
            assert("Elétrico"@[0] != "Gasolina"@[0]);
            assert("Elétrico"@.len() != "Diesel"@.len());
            assert("Elétrico"@.len() != "Híbrido"@.len());
            assert("Elétrico"@.len() != "Híbrido plug-in"@.len());
            assert(option_synonyms("Elétrico"@) =~= seq!["Electric"@]);
        },
        Fuel::Gasoline => {
            assert("Gasolina"@.len() != "Casa"@.len());
            assert("Gasolina"@.len() != "Apartamento"@.len());
            assert("Gasolina"@.len() != "Casa geminada"@.len());
            assert("Gasolina"@.len() != "À venda"@.len());
            assert("Gasolina"@.len() != "Aluguel"@.len());
            assert("Gasolina"@.len() != "Carro/picape"@.len());
            assert("Gasolina"@.len() != "Motocicleta"@.len());
            assert("Gasolina"@.len() != "Veículos para esportes"@.len());
            assert("Gasolina"@.len() != "Trailer"@.len());
            assert("Gasolina"@.len() != "Reboque"@.len());
            assert("Gasolina"@.len() != "Barco"@.len());
            assert("Gasolina"@.len() != "Comercial/industrial"@.len());
            assert("Gasolina"@.len() != "Excelente"@.len());
            assert("Gasolina"@.len() != "Muito bom"@.len());
            assert("Gasolina"@.len() != "Bom"@.len());
            assert("Gasolina"@[0] != "Razoável"@[0]);
            assert("Gasolina"@.len() != "Ruim"@.len());
            assert(option_synonyms("Gasolina"@) =~= seq!["Gas"@, "Gasoline"@]);
        },
        Fuel::Flex => {
            assert("Flex"@[0] != "Casa"@[0]);
            assert("Flex"@.len() != "Apartamento"@.len());
            assert("Flex"@.len() != "Casa geminada"@.len());
            assert("Flex"@.len() != "À venda"@.len());
            assert("Flex"@.len() != "Aluguel"@.len());
            assert("Flex"@.len() != "Carro/picape"@.len());
            assert("Flex"@.len() != "Motocicleta"@.len());
            assert("Flex"@.len() != "Veículos para esportes"@.len());
            assert("Flex"@.len() != "Trailer"@.len());
            assert("Flex"@.len() != "Reboque"@.len());
            assert("Flex"@.len() != "Barco"@.len());
            assert("Flex"@.len() != "Comercial/industrial"@.len());
            assert("Flex"@.len() != "Excelente"@.len());
            assert("Flex"@.len() != "Muito bom"@.len());
            assert("Flex"@.len() != "Bom"@.len());
            assert("Flex"@.len() != "Razoável"@.len());
            assert("Flex"@[0] != "Ruim"@[0]);
            assert("Flex"@.len() != "Gasolina"@.len());
            assert("Flex"@.len() != "Diesel"@.len());
            assert("Flex"@.len() != "Híbrido"@.len());
            assert("Flex"@.len() != "Híbrido plug-in"@.len());
            assert("Flex"@.len() != "Elétrico"@.len());
            assert(option_synonyms("Flex"@) =~= seq!["Flex"@]);
        },
        Fuel::Hybrid => {
            assert("Híbrido"@.len() != "Casa"@.len());
            assert("Híbrido"@.len() != "Apartamento"@.len());
            assert("Híbrido"@.len() != "Casa geminada"@.len());
            assert("Híbrido"@[0] != "À venda"@[0]);
            assert("Híbrido"@[0] != "Aluguel"@[0]);
            assert("Híbrido"@.len() != "Carro/picape"@.len());
            assert("Híbrido"@.len() != "Motocicleta"@.len());
            assert("Híbrido"@.len() != "Veículos para esportes"@.len());
            assert("Híbrido"@[0] != "Trailer"@[0]);
            assert("Híbrido"@[0] != "Reboque"@[0]);
            assert("Híbrido"@.len() != "Barco"@.len());
            assert("Híbrido"@.len() != "Comercial/industrial"@.len());
            assert("Híbrido"@.len() != "Excelente"@.len());
            assert("Híbrido"@.len() != "Muito bom"@.len());
            assert("Híbrido"@.len() != "Bom"@.len());
            assert("Híbrido"@.len() != "Razoável"@.len());
            assert("Híbrido"@.len() != "Ruim"@.len());
            assert("Híbrido"@.len() != "Gasolina"@.len());
            assert("Híbrido"@.len() != "Diesel"@.len());
            assert(option_synonyms("Híbrido"@) =~= seq!["Hybrid"@]);
        },
        Fuel::PlugInHybrid => {
            assert("Híbrido plug-in"@.len() != "Casa"@.len());
            assert("Híbrido plug-in"@.len() != "Apartamento"@.len());
            assert("Híbrido plug-in"@.len() != "Casa geminada"@.len());
            assert("Híbrido plug-in"@.len() != "À venda"@.len());
            assert("Híbrido plug-in"@.len() != "Aluguel"@.len());
            assert("Híbrido plug-in"@.len() != "Carro/picape"@.len());
            assert("Híbrido plug-in"@.len() != "Motocicleta"@.len());
            assert("Híbrido plug-in"@.len() != "Veículos para esportes"@.len());
            assert("Híbrido plug-in"@.len() != "Trailer"@.len());
            assert("Híbrido plug-in"@.len() != "Reboque"@.len());
            assert("Híbrido plug-in"@.len() != "Barco"@.len());
            assert("Híbrido plug-in"@.len() != "Comercial/industrial"@.len());
            assert("Híbrido plug-in"@.len() != "Excelente"@.len());
            assert("Híbrido plug-in"@.len() != "Muito bom"@.len());
            assert("Híbrido plug-in"@.len() != "Bom"@.len());
            assert("Híbrido plug-in"@.len() != "Razoável"@.len());
            assert("Híbrido plug-in"@.len() != "Ruim"@.len());
            assert("Híbrido plug-in"@.len() != "Gasolina"@.len());
            assert("Híbrido plug-in"@.len() != "Diesel"@.len());
            assert("Híbrido plug-in"@.len() != "Híbrido"@.len());
            assert(option_synonyms("Híbrido plug-in"@) =~= seq!["Plug-in hybrid"@]);
        },
        Fuel::Other => {
            assert("Outro"@.len() != "Casa"@.len());
            assert("Outro"@.len() != "Apartamento"@.len());
            assert("Outro"@.len() != "Casa geminada"@.len());
            assert("Outro"@.len() != "À venda"@.len());
            assert("Outro"@.len() != "Aluguel"@.len());
            assert("Outro"@.len() != "Carro/picape"@.len());
            assert("Outro"@.len() != "Motocicleta"@.len());
            assert("Outro"@.len() != "Veículos para esportes"@.len());
            assert("Outro"@.len() != "Trailer"@.len());
            assert("Outro"@.len() != "Reboque"@.len());
            assert("Outro"@[0] != "Barco"@[0]);
            assert("Outro"@.len() != "Comercial/industrial"@.len());
            assert("Outro"@.len() != "Excelente"@.len());
            assert("Outro"@.len() != "Muito bom"@.len());
            assert("Outro"@.len() != "Bom"@.len());
            assert("Outro"@.len() != "Razoável"@.len());
            assert("Outro"@.len() != "Ruim"@.len());
            assert("Outro"@.len() != "Gasolina"@.len());
            assert("Outro"@.len() != "Diesel"@.len());
            assert("Outro"@.len() != "Híbrido"@.len());
            assert("Outro"@.len() != "Híbrido plug-in"@.len());
            assert("Outro"@.len() != "Elétrico"@.len());
            assert("Outro"@.len() != "Flex"@.len());
            assert("Outro"@.len() != "Cupê"@.len());
            assert("Outro"@.len() != "Sedã"@.len());
            assert("Outro"@[0] != "Hatch"@[0]);
            assert("Outro"@.len() != "SUV"@.len());
            assert("Outro"@.len() != "Conversível"@.len());
            assert("Outro"@.len() != "Station wagon"@.len());
            assert("Outro"@.len() != "Minivan"@.len());
            assert("Outro"@.len() != "Carro compacto"@.len());
            assert(option_synonyms("Outro"@) =~= seq!["Other"@]);
        },
    }
    assert(option_terms(c.label()) =~= (match c {
            Fuel::Diesel => seq!["Diesel"@, "Diesel"@],
            Fuel::Electric => seq!["Elétrico"@, "Electric"@],
            Fuel::Gasoline => seq!["Gasolina"@, "Gas"@, "Gasoline"@],
            Fuel::Flex => seq!["Flex"@, "Flex"@],
            Fuel::Hybrid => seq!["Híbrido"@, "Hybrid"@],
            Fuel::PlugInHybrid => seq!["Híbrido plug-in"@, "Plug-in hybrid"@],
            Fuel::Other => seq!["Outro"@, "Other"@],
    }));
}

#[verifier::spinoff_prover]
proof fn lemma_fuel_diesel_locator(b: Fuel)
    ensures
        seq_contains("Diesel"@, "Diesel"@),
        b != Fuel::Diesel ==> {
            &&& !seq_contains(b.label(), "Diesel"@) && !seq_contains(fuel_english(b), "Diesel"@)
        },
{
    reveal_strlit("Diesel");
    reveal_strlit("Electric");
    reveal_strlit("Elétrico");
    reveal_strlit("Flex");
    reveal_strlit("Gasolina");
    reveal_strlit("Gasoline");
    reveal_strlit("Hybrid");
    reveal_strlit("Híbrido");
    reveal_strlit("Híbrido plug-in");
    reveal_strlit("Other");
    reveal_strlit("Outro");
    reveal_strlit("Plug-in hybrid");
    reveal_with_fuel(occurs_from, 17);
    reveal_with_fuel(matches_from, 8);
    assert(occurs_at("Diesel"@, "Diesel"@, 0)) by {
        assert("Diesel"@.subrange(0, "Diesel"@.len() as int) =~= "Diesel"@);
    }
    match b {
        Fuel::Electric => {
            lemma_absent("Elétrico"@, "Diesel"@);
            lemma_absent("Electric"@, "Diesel"@);
        },
        Fuel::Gasoline => {
            lemma_absent("Gasolina"@, "Diesel"@);
            lemma_absent("Gasoline"@, "Diesel"@);
        },
        Fuel::Flex => {
            lemma_absent("Flex"@, "Diesel"@);
        },
        Fuel::Hybrid => {
            lemma_absent("Híbrido"@, "Diesel"@);
            lemma_absent("Hybrid"@, "Diesel"@);
        },
        Fuel::PlugInHybrid => {
            lemma_absent("Híbrido plug-in"@, "Diesel"@);
            lemma_absent("Plug-in hybrid"@, "Diesel"@);
        },
        Fuel::Other => {
            lemma_absent("Outro"@, "Diesel"@);
            lemma_absent("Other"@, "Diesel"@);
        },
        _ => {},
    }
}

#[verifier::spinoff_prover]
proof fn lemma_fuel_electric_locator(b: Fuel)
    ensures
        seq_contains("Electric"@, "Electric"@),
        b != Fuel::Electric ==> {
            &&& !seq_contains(b.label(), "Elétrico"@) && !seq_contains(fuel_english(b), "Elétrico"@)
            &&& !seq_contains(b.label(), "Electric"@) && !seq_contains(fuel_english(b), "Electric"@)
        },
{
    reveal_strlit("Diesel");
    reveal_strlit("Electric");
    reveal_strlit("Elétrico");
    reveal_strlit("Flex");
    reveal_strlit("Gasolina");
    reveal_strlit("Gasoline");
    reveal_strlit("Hybrid");
    reveal_strlit("Híbrido");
    reveal_strlit("Híbrido plug-in");
    reveal_strlit("Other");
    reveal_strlit("Outro");
    reveal_strlit("Plug-in hybrid");
    reveal_with_fuel(occurs_from, 17);
    reveal_with_fuel(matches_from, 10);
    assert(occurs_at("Electric"@, "Electric"@, 0)) by {
        assert("Electric"@.subrange(0, "Electric"@.len() as int) =~= "Electric"@);
    }
    match b {
        Fuel::Diesel => {
            lemma_absent("Diesel"@, "Elétrico"@);
            lemma_absent("Diesel"@, "Electric"@);
        },
        Fuel::Gasoline => {
            lemma_absent("Gasolina"@, "Elétrico"@);
            lemma_absent("Gasolina"@, "Electric"@);
            lemma_absent("Gasoline"@, "Elétrico"@);
            lemma_absent("Gasoline"@, "Electric"@);
        },
        Fuel::Flex => {
            lemma_absent("Flex"@, "Elétrico"@);
            lemma_absent("Flex"@, "Electric"@);
        },
        Fuel::Hybrid => {
            lemma_absent("Híbrido"@, "Elétrico"@);
            lemma_absent("Híbrido"@, "Electric"@);
            lemma_absent("Hybrid"@, "Elétrico"@);
            lemma_absent("Hybrid"@, "Electric"@);
        },
        Fuel::PlugInHybrid => {
            lemma_absent("Híbrido plug-in"@, "Elétrico"@);
            lemma_absent("Híbrido plug-in"@, "Electric"@);
            lemma_absent("Plug-in hybrid"@, "Elétrico"@);
            lemma_absent("Plug-in hybrid"@, "Electric"@);
        },
        Fuel::Other => {
            lemma_absent("Outro"@, "Elétrico"@);
            lemma_absent("Outro"@, "Electric"@);
            lemma_absent("Other"@, "Elétrico"@);
            lemma_absent("Other"@, "Electric"@);
        },
        _ => {},
    }
}

#[verifier::spinoff_prover]
proof fn lemma_fuel_gasoline_locator(b: Fuel)
    ensures
        seq_contains("Gasoline"@, "Gas"@),
        b != Fuel::Gasoline ==> {
            &&& !seq_contains(b.label(), "Gasolina"@) && !seq_contains(fuel_english(b), "Gasolina"@)
            &&& !seq_contains(b.label(), "Gas"@) && !seq_contains(fuel_english(b), "Gas"@)
            &&& !seq_contains(b.label(), "Gasoline"@) && !seq_contains(fuel_english(b), "Gasoline"@)
        },
{
    reveal_strlit("Diesel");
    reveal_strlit("Electric");
    reveal_strlit("Elétrico");
    reveal_strlit("Flex");
    reveal_strlit("Gas");
    reveal_strlit("Gasolina");
    reveal_strlit("Gasoline");
    reveal_strlit("Hybrid");
    reveal_strlit("Híbrido");
    reveal_strlit("Híbrido plug-in");
    reveal_strlit("Other");
    reveal_strlit("Outro");
    reveal_strlit("Plug-in hybrid");
    reveal_with_fuel(occurs_from, 17);
    reveal_with_fuel(matches_from, 10);
    assert(occurs_from("Gasoline"@, "Gas"@, 0)) by {
        reveal_strlit("Gasoline");
        reveal_strlit("Gas");
        reveal_with_fuel(occurs_from, 10);
        reveal_with_fuel(matches_from, 5);
    }
    lemma_occurs_from_start("Gasoline"@, "Gas"@);
    match b {
        Fuel::Diesel => {
            lemma_absent("Diesel"@, "Gasolina"@);
            lemma_absent("Diesel"@, "Gas"@);
            lemma_absent("Diesel"@, "Gasoline"@);
        },
        Fuel::Electric => {
            lemma_absent("Elétrico"@, "Gasolina"@);
            lemma_absent("Elétrico"@, "Gas"@);
            lemma_absent("Elétrico"@, "Gasoline"@);
            lemma_absent("Electric"@, "Gasolina"@);
            lemma_absent("Electric"@, "Gas"@);
            lemma_absent("Electric"@, "Gasoline"@);
        },
        Fuel::Flex => {
            lemma_absent("Flex"@, "Gasolina"@);
            lemma_absent("Flex"@, "Gas"@);
            lemma_absent("Flex"@, "Gasoline"@);
        },
        Fuel::Hybrid => {
            lemma_absent("Híbrido"@, "Gasolina"@);
            lemma_absent("Híbrido"@, "Gas"@);
            lemma_absent("Híbrido"@, "Gasoline"@);
            lemma_absent("Hybrid"@, "Gasolina"@);
            lemma_absent("Hybrid"@, "Gas"@);
            lemma_absent("Hybrid"@, "Gasoline"@);
        },
        Fuel::PlugInHybrid => {
            lemma_absent("Híbrido plug-in"@, "Gasolina"@);
            lemma_absent("Híbrido plug-in"@, "Gas"@);
            lemma_absent("Híbrido plug-in"@, "Gasoline"@);
            lemma_absent("Plug-in hybrid"@, "Gasolina"@);
            lemma_absent("Plug-in hybrid"@, "Gas"@);
            lemma_absent("Plug-in hybrid"@, "Gasoline"@);
        },
        Fuel::Other => {
            lemma_absent("Outro"@, "Gasolina"@);
            lemma_absent("Outro"@, "Gas"@);
            lemma_absent("Outro"@, "Gasoline"@);
            lemma_absent("Other"@, "Gasolina"@);
            lemma_absent("Other"@, "Gas"@);
            lemma_absent("Other"@, "Gasoline"@);
        },
        _ => {},
    }
}

#[verifier::spinoff_prover]
proof fn lemma_fuel_flex_locator(b: Fuel)
    ensures
        seq_contains("Flex"@, "Flex"@),
        b != Fuel::Flex ==> {
            &&& !seq_contains(b.label(), "Flex"@) && !seq_contains(fuel_english(b), "Flex"@)
        },
{
    reveal_strlit("Diesel");
    reveal_strlit("Electric");
    reveal_strlit("Elétrico");
    reveal_strlit("Flex");
    reveal_strlit("Gasolina");
    reveal_strlit("Gasoline");
    reveal_strlit("Hybrid");
    reveal_strlit("Híbrido");
    reveal_strlit("Híbrido plug-in");
    reveal_strlit("Other");
    reveal_strlit("Outro");
    reveal_strlit("Plug-in hybrid");
    reveal_with_fuel(occurs_from, 17);
    reveal_with_fuel(matches_from, 6);
    assert(occurs_at("Flex"@, "Flex"@, 0)) by {
        assert("Flex"@.subrange(0, "Flex"@.len() as int) =~= "Flex"@);
    }
    match b {
        Fuel::Diesel => {
            lemma_absent("Diesel"@, "Flex"@);
        },
        Fuel::Electric => {
            lemma_absent("Elétrico"@, "Flex"@);
            lemma_absent("Electric"@, "Flex"@);
        },
        Fuel::Gasoline => {
            lemma_absent("Gasolina"@, "Flex"@);
            lemma_absent("Gasoline"@, "Flex"@);
        },
        Fuel::Hybrid => {
            lemma_absent("Híbrido"@, "Flex"@);
            lemma_absent("Hybrid"@, "Flex"@);
        },
        Fuel::PlugInHybrid => {
            lemma_absent("Híbrido plug-in"@, "Flex"@);
            lemma_absent("Plug-in hybrid"@, "Flex"@);
        },
        Fuel::Other => {
            lemma_absent("Outro"@, "Flex"@);
            lemma_absent("Other"@, "Flex"@);
        },
        _ => {},
    }
}

#[verifier::spinoff_prover]
proof fn lemma_fuel_hybrid_locator(b: Fuel)
    ensures
        seq_contains("Hybrid"@, "Hybrid"@),
        b != Fuel::Hybrid && b != Fuel::PlugInHybrid ==> {
            &&& !seq_contains(b.label(), "Híbrido"@) && !seq_contains(fuel_english(b), "Híbrido"@)
            &&& !seq_contains(b.label(), "Hybrid"@) && !seq_contains(fuel_english(b), "Hybrid"@)
        },
{
    reveal_strlit("Diesel");
    reveal_strlit("Electric");
    reveal_strlit("Elétrico");
    reveal_strlit("Flex");
    reveal_strlit("Gasolina");
    reveal_strlit("Gasoline");
    reveal_strlit("Hybrid");
    reveal_strlit("Híbrido");
    reveal_strlit("Híbrido plug-in");
    reveal_strlit("Other");
    reveal_strlit("Outro");
    reveal_strlit("Plug-in hybrid");
    reveal_with_fuel(occurs_from, 17);
    reveal_with_fuel(matches_from, 9);
    assert(occurs_at("Hybrid"@, "Hybrid"@, 0)) by {
        assert("Hybrid"@.subrange(0, "Hybrid"@.len() as int) =~= "Hybrid"@);
    }
    match b {
        Fuel::Diesel => {
            lemma_absent("Diesel"@, "Híbrido"@);
            lemma_absent("Diesel"@, "Hybrid"@);
        },
        Fuel::Electric => {
            lemma_absent("Elétrico"@, "Híbrido"@);
            lemma_absent("Elétrico"@, "Hybrid"@);
            lemma_absent("Electric"@, "Híbrido"@);
            lemma_absent("Electric"@, "Hybrid"@);
        },
        Fuel::Gasoline => {
            lemma_absent("Gasolina"@, "Híbrido"@);
            lemma_absent("Gasolina"@, "Hybrid"@);
            lemma_absent("Gasoline"@, "Híbrido"@);
            lemma_absent("Gasoline"@, "Hybrid"@);
        },
        Fuel::Flex => {
            lemma_absent("Flex"@, "Híbrido"@);
            lemma_absent("Flex"@, "Hybrid"@);
        },
        Fuel::Other => {
            lemma_absent("Outro"@, "Híbrido"@);
            lemma_absent("Outro"@, "Hybrid"@);
            lemma_absent("Other"@, "Híbrido"@);
            lemma_absent("Other"@, "Hybrid"@);
        },
        _ => {},
    }
}

#[verifier::spinoff_prover]
proof fn lemma_fuel_plug_in_hybrid_locator(b: Fuel)
    ensures
        seq_contains("Plug-in hybrid"@, "Plug-in hybrid"@),
        b != Fuel::PlugInHybrid ==> {
            &&& !seq_contains(b.label(), "Híbrido plug-in"@) && !seq_contains(fuel_english(b), "Híbrido plug-in"@)
            &&& !seq_contains(b.label(), "Plug-in hybrid"@) && !seq_contains(fuel_english(b), "Plug-in hybrid"@)
        },
{
    reveal_strlit("Diesel");
    reveal_strlit("Electric");
    reveal_strlit("Elétrico");
    reveal_strlit("Flex");
    reveal_strlit("Gasolina");
    reveal_strlit("Gasoline");
    reveal_strlit("Hybrid");
    reveal_strlit("Híbrido");
    reveal_strlit("Híbrido plug-in");
    reveal_strlit("Other");
    reveal_strlit("Outro");
    reveal_strlit("Plug-in hybrid");
    reveal_with_fuel(occurs_from, 17);
    reveal_with_fuel(matches_from, 17);
    assert(occurs_at("Plug-in hybrid"@, "Plug-in hybrid"@, 0)) by {
        assert("Plug-in hybrid"@.subrange(0, "Plug-in hybrid"@.len() as int) =~= "Plug-in hybrid"@);
    }
    match b {
        Fuel::Diesel => {
            lemma_absent("Diesel"@, "Híbrido plug-in"@);
            lemma_absent("Diesel"@, "Plug-in hybrid"@);
        },
        Fuel::Electric => {
            lemma_absent("Elétrico"@, "Híbrido plug-in"@);
            lemma_absent("Elétrico"@, "Plug-in hybrid"@);
            lemma_absent("Electric"@, "Híbrido plug-in"@);
            lemma_absent("Electric"@, "Plug-in hybrid"@);
        },
        Fuel::Gasoline => {
            lemma_absent("Gasolina"@, "Híbrido plug-in"@);
            lemma_absent("Gasolina"@, "Plug-in hybrid"@);
            lemma_absent("Gasoline"@, "Híbrido plug-in"@);
            lemma_absent("Gasoline"@, "Plug-in hybrid"@);
        },
        Fuel::Flex => {
            lemma_absent("Flex"@, "Híbrido plug-in"@);
            lemma_absent("Flex"@, "Plug-in hybrid"@);
        },
        Fuel::Hybrid => {
            lemma_absent("Híbrido"@, "Híbrido plug-in"@);
            lemma_absent("Híbrido"@, "Plug-in hybrid"@);
            lemma_absent("Hybrid"@, "Híbrido plug-in"@);
            lemma_absent("Hybrid"@, "Plug-in hybrid"@);
        },
        Fuel::Other => {
            lemma_absent("Outro"@, "Híbrido plug-in"@);
            lemma_absent("Outro"@, "Plug-in hybrid"@);
            lemma_absent("Other"@, "Híbrido plug-in"@);
            lemma_absent("Other"@, "Plug-in hybrid"@);
        },
        _ => {},
    }
}

#[verifier::spinoff_prover]
proof fn lemma_fuel_other_locator(b: Fuel)
    ensures
        seq_contains("Other"@, "Other"@),
        b != Fuel::Other ==> {
            &&& !seq_contains(b.label(), "Outro"@) && !seq_contains(fuel_english(b), "Outro"@)
            &&& !seq_contains(b.label(), "Other"@) && !seq_contains(fuel_english(b), "Other"@)
        },
{
    reveal_strlit("Diesel");
    reveal_strlit("Electric");
    reveal_strlit("Elétrico");
    reveal_strlit("Flex");
    reveal_strlit("Gasolina");
    reveal_strlit("Gasoline");
    reveal_strlit("Hybrid");
    reveal_strlit("Híbrido");
    reveal_strlit("Híbrido plug-in");
    reveal_strlit("Other");
    reveal_strlit("Outro");
    reveal_strlit("Plug-in hybrid");
    reveal_with_fuel(occurs_from, 17);
    reveal_with_fuel(matches_from, 7);
    assert(occurs_at("Other"@, "Other"@, 0)) by {
        assert("Other"@.subrange(0, "Other"@.len() as int) =~= "Other"@);
    }
    match b {
        Fuel::Diesel => {
            lemma_absent("Diesel"@, "Outro"@);
            lemma_absent("Diesel"@, "Other"@);
        },
        Fuel::Electric => {
            lemma_absent("Elétrico"@, "Outro"@);
            lemma_absent("Elétrico"@, "Other"@);
            lemma_absent("Electric"@, "Outro"@);
            lemma_absent("Electric"@, "Other"@);
        },
        Fuel::Gasoline => {
            lemma_absent("Gasolina"@, "Outro"@);
            lemma_absent("Gasolina"@, "Other"@);
            lemma_absent("Gasoline"@, "Outro"@);
            lemma_absent("Gasoline"@, "Other"@);
        },
        Fuel::Flex => {
            lemma_absent("Flex"@, "Outro"@);
            lemma_absent("Flex"@, "Other"@);
        },
        Fuel::Hybrid => {
            lemma_absent("Híbrido"@, "Outro"@);
            lemma_absent("Híbrido"@, "Other"@);
            lemma_absent("Hybrid"@, "Outro"@);
            lemma_absent("Hybrid"@, "Other"@);
        },
        Fuel::PlugInHybrid => {
            lemma_absent("Híbrido plug-in"@, "Outro"@);
            lemma_absent("Híbrido plug-in"@, "Other"@);
            lemma_absent("Plug-in hybrid"@, "Outro"@);
            lemma_absent("Plug-in hybrid"@, "Other"@);
        },
        _ => {},
    }
}

/// The locator of a fuel option picks that fuel's English option, and no
/// option of another fuel: none of its terms occurs in another fuel's
/// Portuguese or English name, but for "Híbrido", which also occurs in
/// "Híbrido plug-in".
pub proof fn lemma_fuel_locators(a: Fuel, b: Fuel)
    ensures
        exists|k: int| 0 <= k < option_terms(a.label()).len() && seq_contains(fuel_english(a), #[trigger] option_terms(a.label())[k]),
        a != b && !(a == Fuel::Hybrid && b == Fuel::PlugInHybrid) ==> forall|k: int| 0 <= k < option_terms(a.label()).len() ==>
            !seq_contains(b.label(), #[trigger] option_terms(a.label())[k])
                && !seq_contains(fuel_english(b), option_terms(a.label())[k]),
        a == Fuel::Hybrid && b == Fuel::PlugInHybrid ==> seq_contains(b.label(), option_terms(a.label())[0]),
{
    lemma_fuel_terms(a);
    match a {
        Fuel::Diesel => { lemma_fuel_diesel_locator(b); assert(seq_contains(fuel_english(a), option_terms(a.label())[0])); },
        Fuel::Electric => { lemma_fuel_electric_locator(b); assert(seq_contains(fuel_english(a), option_terms(a.label())[1])); },
        Fuel::Gasoline => { lemma_fuel_gasoline_locator(b); assert(seq_contains(fuel_english(a), option_terms(a.label())[1])); },
        Fuel::Flex => { lemma_fuel_flex_locator(b); assert(seq_contains(fuel_english(a), option_terms(a.label())[0])); },
        Fuel::Hybrid => { lemma_fuel_hybrid_locator(b); assert(seq_contains(fuel_english(a), option_terms(a.label())[1])); },
        Fuel::PlugInHybrid => { lemma_fuel_plug_in_hybrid_locator(b); assert(seq_contains(fuel_english(a), option_terms(a.label())[1])); },
        Fuel::Other => { lemma_fuel_other_locator(b); assert(seq_contains(fuel_english(a), option_terms(a.label())[1])); },
    }
    if a == Fuel::Hybrid && b == Fuel::PlugInHybrid {
        reveal_strlit("Híbrido");
        reveal_strlit("Híbrido plug-in");
        assert(occurs_at("Híbrido plug-in"@, "Híbrido"@, 0)) by {
            assert("Híbrido plug-in"@.subrange(0, 7) =~= "Híbrido"@);
        }
    }
}

/// The name under which the marketplace shows each vehicle condition in English.
pub open spec fn condition_english(c: Condition) -> Seq<char> {
    match c {
        Condition::Excellent => "Like new"@,
        Condition::VeryGood => "Very good"@,
        Condition::Good => "Good"@,
        Condition::Fair => "Fair"@,
        Condition::Poor => "Poor"@,
    }
}

/// The terms of the locator of each vehicle condition.
proof fn lemma_condition_terms(c: Condition)
    ensures
        option_terms(c.label()) == (match c {
            Condition::Excellent => seq!["Excelente"@, "Like new"@, "excelente"@],
            Condition::VeryGood => seq!["Muito bom"@, "Very good"@, "muito bom"@],
            Condition::Good => seq!["Bom"@, "Good"@, "bom"@],
            Condition::Fair => seq!["Razoável"@, "Fair"@, "razoável"@],
            Condition::Poor => seq!["Ruim"@, "Poor"@, "ruim"@],
        }),
{
    reveal_strlit("Aluguel");
    reveal_strlit("Apartamento");
    reveal_strlit("Barco");
    reveal_strlit("Bom");
    reveal_strlit("Carro compacto");
    reveal_strlit("Carro/picape");
    reveal_strlit("Casa");
    reveal_strlit("Casa geminada");
    reveal_strlit("Comercial/industrial");
    reveal_strlit("Conversível");
    reveal_strlit("Cupê");
    reveal_strlit("Diesel");
    reveal_strlit("Elétrico");
    reveal_strlit("Excelente");
    reveal_strlit("Fair");
    reveal_strlit("Flex");
    reveal_strlit("Gasolina");
    reveal_strlit("Good");
    reveal_strlit("Hatch");
    reveal_strlit("Híbrido");
    reveal_strlit("Híbrido plug-in");
    reveal_strlit("Like new");
    reveal_strlit("Minivan");
    reveal_strlit("Motocicleta");
    reveal_strlit("Muito bom");
    reveal_strlit("Outro");
    reveal_strlit("Poor");
    reveal_strlit("Razoável");
    reveal_strlit("Reboque");
    reveal_strlit("Ruim");
    reveal_strlit("SUV");
    reveal_strlit("Sedã");
    reveal_strlit("Station wagon");
    reveal_strlit("Trailer");
    reveal_strlit("Very good");
    reveal_strlit("Veículos para esportes");
    reveal_strlit("bom");
    reveal_strlit("excelente");
    reveal_strlit("muito bom");
    reveal_strlit("razoável");
    reveal_strlit("ruim");
    reveal_strlit("À venda");
    match c {
        Condition::Excellent => {
            assert("Excelente"@.len() != "Casa"@.len());
            assert("Excelente"@.len() != "Apartamento"@.len());
            assert("Excelente"@.len() != "Casa geminada"@.len());
            assert("Excelente"@.len() != "À venda"@.len());
            assert("Excelente"@.len() != "Aluguel"@.len());
            assert("Excelente"@.len() != "Carro/picape"@.len());
            assert("Excelente"@.len() != "Motocicleta"@.len());
            assert("Excelente"@.len() != "Veículos para esportes"@.len());
            assert("Excelente"@.len() != "Trailer"@.len());
            assert("Excelente"@.len() != "Reboque"@.len());
            assert("Excelente"@.len() != "Barco"@.len());
            assert("Excelente"@.len() != "Comercial/industrial"@.len());
            assert(option_synonyms("Excelente"@) =~= seq!["Like new"@, "excelente"@]);
        },
        Condition::VeryGood => {
            assert("Muito bom"@.len() != "Casa"@.len());
            assert("Muito bom"@.len() != "Apartamento"@.len());
            assert("Muito bom"@.len() != "Casa geminada"@.len());
            assert("Muito bom"@.len() != "À venda"@.len());
            assert("Muito bom"@.len() != "Aluguel"@.len());
            assert("Muito bom"@.len() != "Carro/picape"@.len());
            assert("Muito bom"@.len() != "Motocicleta"@.len());
            assert("Muito bom"@.len() != "Veículos para esportes"@.len());
            assert("Muito bom"@.len() != "Trailer"@.len());
            assert("Muito bom"@.len() != "Reboque"@.len());
            assert("Muito bom"@.len() != "Barco"@.len());
            assert("Muito bom"@.len() != "Comercial/industrial"@.len());
            assert("Muito bom"@[0] != "Excelente"@[0]);
            assert(option_synonyms("Muito bom"@) =~= seq!["Very good"@, "muito bom"@]);
        },
        Condition::Good => {
            assert("Bom"@.len() != "Casa"@.len());
            assert("Bom"@.len() != "Apartamento"@.len());
            assert("Bom"@.len() != "Casa geminada"@.len());
            assert("Bom"@.len() != "À venda"@.len());
            assert("Bom"@.len() != "Aluguel"@.len());
            assert("Bom"@.len() != "Carro/picape"@.len());
            assert("Bom"@.len() != "Motocicleta"@.len());
            assert("Bom"@.len() != "Veículos para esportes"@.len());
            assert("Bom"@.len() != "Trailer"@.len());
            assert("Bom"@.len() != "Reboque"@.len());
            assert("Bom"@.len() != "Barco"@.len());
            assert("Bom"@.len() != "Comercial/industrial"@.len());
            assert("Bom"@.len() != "Excelente"@.len());
            assert("Bom"@.len() != "Muito bom"@.len());
            assert(option_synonyms("Bom"@) =~= seq!["Good"@, "bom"@]);
        },
        Condition::Fair => {
            assert("Razoável"@.len() != "Casa"@.len());
            assert("Razoável"@.len() != "Apartamento"@.len());
            assert("Razoável"@.len() != "Casa geminada"@.len());
            assert("Razoável"@.len() != "À venda"@.len());
            assert("Razoável"@.len() != "Aluguel"@.len());
            assert("Razoável"@.len() != "Carro/picape"@.len());
            assert("Razoável"@.len() != "Motocicleta"@.len());
            assert("Razoável"@.len() != "Veículos para esportes"@.len());
            assert("Razoável"@.len() != "Trailer"@.len());
            assert("Razoável"@.len() != "Reboque"@.len());
            assert("Razoável"@.len() != "Barco"@.len());
            assert("Razoável"@.len() != "Comercial/industrial"@.len());
            assert("Razoável"@.len() != "Excelente"@.len());
            assert("Razoável"@.len() != "Muito bom"@.len());
            assert("Razoável"@.len() != "Bom"@.len());
            assert(option_synonyms("Razoável"@) =~= seq!["Fair"@, "razoável"@]);
        },
        Condition::Poor => {
            assert("Ruim"@[0] != "Casa"@[0]);
            assert("Ruim"@.len() != "Apartamento"@.len());
            assert("Ruim"@.len() != "Casa geminada"@.len());
            assert("Ruim"@.len() != "À venda"@.len());
            assert("Ruim"@.len() != "Aluguel"@.len());
            assert("Ruim"@.len() != "Carro/picape"@.len());
            assert("Ruim"@.len() != "Motocicleta"@.len());
            assert("Ruim"@.len() != "Veículos para esportes"@.len());
            assert("Ruim"@.len() != "Trailer"@.len());
            assert("Ruim"@.len() != "Reboque"@.len());
            assert("Ruim"@.len() != "Barco"@.len());
            assert("Ruim"@.len() != "Comercial/industrial"@.len());
            assert("Ruim"@.len() != "Excelente"@.len());
            assert("Ruim"@.len() != "Muito bom"@.len());
            assert("Ruim"@.len() != "Bom"@.len());
            assert("Ruim"@.len() != "Razoável"@.len());
            assert(option_synonyms("Ruim"@) =~= seq!["Poor"@, "ruim"@]);
        },
    }
    assert(option_terms(c.label()) =~= (match c {
            Condition::Excellent => seq!["Excelente"@, "Like new"@, "excelente"@],
            Condition::VeryGood => seq!["Muito bom"@, "Very good"@, "muito bom"@],
            Condition::Good => seq!["Bom"@, "Good"@, "bom"@],
            Condition::Fair => seq!["Razoável"@, "Fair"@, "razoável"@],
            Condition::Poor => seq!["Ruim"@, "Poor"@, "ruim"@],
    }));
}

#[verifier::spinoff_prover]
proof fn lemma_condition_excellent_locator(b: Condition)
    ensures
        seq_contains("Like new"@, "Like new"@),
        b != Condition::Excellent ==> {
            &&& !seq_contains(b.label(), "Excelente"@) && !seq_contains(condition_english(b), "Excelente"@)
            &&& !seq_contains(b.label(), "Like new"@) && !seq_contains(condition_english(b), "Like new"@)
            &&& !seq_contains(b.label(), "excelente"@) && !seq_contains(condition_english(b), "excelente"@)
        },
{
    reveal_strlit("Bom");
    reveal_strlit("Excelente");
    reveal_strlit("Fair");
    reveal_strlit("Good");
    reveal_strlit("Like new");
    reveal_strlit("Muito bom");
    reveal_strlit("Poor");
    reveal_strlit("Razoável");
    reveal_strlit("Ruim");
    reveal_strlit("Very good");
    reveal_strlit("excelente");
    reveal_with_fuel(occurs_from, 11);
    reveal_with_fuel(matches_from, 11);
    assert(occurs_at("Like new"@, "Like new"@, 0)) by {
        assert("Like new"@.subrange(0, "Like new"@.len() as int) =~= "Like new"@);
    }
    match b {
        Condition::VeryGood => {
            lemma_absent("Muito bom"@, "Excelente"@);
            lemma_absent("Muito bom"@, "Like new"@);
            lemma_absent("Muito bom"@, "excelente"@);
            lemma_absent("Very good"@, "Excelente"@);
            lemma_absent("Very good"@, "Like new"@);
            lemma_absent("Very good"@, "excelente"@);
        },
        Condition::Good => {
            lemma_absent("Bom"@, "Excelente"@);
            lemma_absent("Bom"@, "Like new"@);
            lemma_absent("Bom"@, "excelente"@);
            lemma_absent("Good"@, "Excelente"@);
            lemma_absent("Good"@, "Like new"@);
            lemma_absent("Good"@, "excelente"@);
        },
        Condition::Fair => {
            lemma_absent("Razoável"@, "Excelente"@);
            lemma_absent("Razoável"@, "Like new"@);
            lemma_absent("Razoável"@, "excelente"@);
            lemma_absent("Fair"@, "Excelente"@);
            lemma_absent("Fair"@, "Like new"@);
            lemma_absent("Fair"@, "excelente"@);
        },
        Condition::Poor => {
            lemma_absent("Ruim"@, "Excelente"@);
            lemma_absent("Ruim"@, "Like new"@);
            lemma_absent("Ruim"@, "excelente"@);
            lemma_absent("Poor"@, "Excelente"@);
            lemma_absent("Poor"@, "Like new"@);
            lemma_absent("Poor"@, "excelente"@);
        },
        _ => {},
    }
}

#[verifier::spinoff_prover]
proof fn lemma_condition_very_good_locator(b: Condition)
    ensures
        seq_contains("Very good"@, "Very good"@),
        b != Condition::VeryGood ==> {
            &&& !seq_contains(b.label(), "Muito bom"@) && !seq_contains(condition_english(b), "Muito bom"@)
            &&& !seq_contains(b.label(), "Very good"@) && !seq_contains(condition_english(b), "Very good"@)
            &&& !seq_contains(b.label(), "muito bom"@) && !seq_contains(condition_english(b), "muito bom"@)
        },
{
    reveal_strlit("Bom");
    reveal_strlit("Excelente");
    reveal_strlit("Fair");
    reveal_strlit("Good");
    reveal_strlit("Like new");
    reveal_strlit("Muito bom");
    reveal_strlit("Poor");
    reveal_strlit("Razoável");
    reveal_strlit("Ruim");
    reveal_strlit("Very good");
    reveal_strlit("muito bom");
    reveal_with_fuel(occurs_from, 11);
    reveal_with_fuel(matches_from, 11);
    assert(occurs_at("Very good"@, "Very good"@, 0)) by {
        assert("Very good"@.subrange(0, "Very good"@.len() as int) =~= "Very good"@);
    }
    match b {
        Condition::Excellent => {
            lemma_absent("Excelente"@, "Muito bom"@);
            lemma_absent("Excelente"@, "Very good"@);
            lemma_absent("Excelente"@, "muito bom"@);
            lemma_absent("Like new"@, "Muito bom"@);
            lemma_absent("Like new"@, "Very good"@);
            lemma_absent("Like new"@, "muito bom"@);
        },
        Condition::Good => {
            lemma_absent("Bom"@, "Muito bom"@);
            lemma_absent("Bom"@, "Very good"@);
            lemma_absent("Bom"@, "muito bom"@);
            lemma_absent("Good"@, "Muito bom"@);
            lemma_absent("Good"@, "Very good"@);
            lemma_absent("Good"@, "muito bom"@);
        },
        Condition::Fair => {
            lemma_absent("Razoável"@, "Muito bom"@);
            lemma_absent("Razoável"@, "Very good"@);
            lemma_absent("Razoável"@, "muito bom"@);
            lemma_absent("Fair"@, "Muito bom"@);
            lemma_absent("Fair"@, "Very good"@);
            lemma_absent("Fair"@, "muito bom"@);
        },
        Condition::Poor => {
            lemma_absent("Ruim"@, "Muito bom"@);
            lemma_absent("Ruim"@, "Very good"@);
            lemma_absent("Ruim"@, "muito bom"@);
            lemma_absent("Poor"@, "Muito bom"@);
            lemma_absent("Poor"@, "Very good"@);
            lemma_absent("Poor"@, "muito bom"@);
        },
        _ => {},
    }
}

#[verifier::spinoff_prover]
proof fn lemma_condition_good_locator(b: Condition)
    ensures
        seq_contains("Good"@, "Good"@),
        b != Condition::Good && b != Condition::VeryGood ==> {
            &&& !seq_contains(b.label(), "Bom"@) && !seq_contains(condition_english(b), "Bom"@)
            &&& !seq_contains(b.label(), "Good"@) && !seq_contains(condition_english(b), "Good"@)
            &&& !seq_contains(b.label(), "bom"@) && !seq_contains(condition_english(b), "bom"@)
        },
{
    reveal_strlit("Bom");
    reveal_strlit("Excelente");
    reveal_strlit("Fair");
    reveal_strlit("Good");
    reveal_strlit("Like new");
    reveal_strlit("Muito bom");
    reveal_strlit("Poor");
    reveal_strlit("Razoável");
    reveal_strlit("Ruim");
    reveal_strlit("Very good");
    reveal_strlit("bom");
    reveal_with_fuel(occurs_from, 11);
    reveal_with_fuel(matches_from, 6);
    assert(occurs_at("Good"@, "Good"@, 0)) by {
        assert("Good"@.subrange(0, "Good"@.len() as int) =~= "Good"@);
    }
    match b {
        Condition::Excellent => {
            lemma_absent("Excelente"@, "Bom"@);
            lemma_absent("Excelente"@, "Good"@);
            lemma_absent("Excelente"@, "bom"@);
            lemma_absent("Like new"@, "Bom"@);
            lemma_absent("Like new"@, "Good"@);
            lemma_absent("Like new"@, "bom"@);
        },
        Condition::Fair => {
            lemma_absent("Razoável"@, "Bom"@);
            lemma_absent("Razoável"@, "Good"@);
            lemma_absent("Razoável"@, "bom"@);
            lemma_absent("Fair"@, "Bom"@);
            lemma_absent("Fair"@, "Good"@);
            lemma_absent("Fair"@, "bom"@);
        },
        Condition::Poor => {
            lemma_absent("Ruim"@, "Bom"@);
            lemma_absent("Ruim"@, "Good"@);
            lemma_absent("Ruim"@, "bom"@);
            lemma_absent("Poor"@, "Bom"@);
            lemma_absent("Poor"@, "Good"@);
            lemma_absent("Poor"@, "bom"@);
        },
        _ => {},
    }
}

#[verifier::spinoff_prover]
proof fn lemma_condition_fair_locator(b: Condition)
    ensures
        seq_contains("Fair"@, "Fair"@),
        b != Condition::Fair ==> {
            &&& !seq_contains(b.label(), "Razoável"@) && !seq_contains(condition_english(b), "Razoável"@)
            &&& !seq_contains(b.label(), "Fair"@) && !seq_contains(condition_english(b), "Fair"@)
            &&& !seq_contains(b.label(), "razoável"@) && !seq_contains(condition_english(b), "razoável"@)
        },
{
    reveal_strlit("Bom");
    reveal_strlit("Excelente");
    reveal_strlit("Fair");
    reveal_strlit("Good");
    reveal_strlit("Like new");
    reveal_strlit("Muito bom");
    reveal_strlit("Poor");
    reveal_strlit("Razoável");
    reveal_strlit("Ruim");
    reveal_strlit("Very good");
    reveal_strlit("razoável");
    reveal_with_fuel(occurs_from, 11);
    reveal_with_fuel(matches_from, 10);
    assert(occurs_at("Fair"@, "Fair"@, 0)) by {
        assert("Fair"@.subrange(0, "Fair"@.len() as int) =~= "Fair"@);
    }
    match b {
        Condition::Excellent => {
            lemma_absent("Excelente"@, "Razoável"@);
            lemma_absent("Excelente"@, "Fair"@);
            lemma_absent("Excelente"@, "razoável"@);
            lemma_absent("Like new"@, "Razoável"@);
            lemma_absent("Like new"@, "Fair"@);
            lemma_absent("Like new"@, "razoável"@);
        },
        Condition::VeryGood => {
            lemma_absent("Muito bom"@, "Razoável"@);
            lemma_absent("Muito bom"@, "Fair"@);
            lemma_absent("Muito bom"@, "razoável"@);
            lemma_absent("Very good"@, "Razoável"@);
            lemma_absent("Very good"@, "Fair"@);
            lemma_absent("Very good"@, "razoável"@);
        },
        Condition::Good => {
            lemma_absent("Bom"@, "Razoável"@);
            lemma_absent("Bom"@, "Fair"@);
            lemma_absent("Bom"@, "razoável"@);
            lemma_absent("Good"@, "Razoável"@);
            lemma_absent("Good"@, "Fair"@);
            lemma_absent("Good"@, "razoável"@);
        },
        Condition::Poor => {
            lemma_absent("Ruim"@, "Razoável"@);
            lemma_absent("Ruim"@, "Fair"@);
            lemma_absent("Ruim"@, "razoável"@);
            lemma_absent("Poor"@, "Razoável"@);
            lemma_absent("Poor"@, "Fair"@);
            lemma_absent("Poor"@, "razoável"@);
        },
        _ => {},
    }
}

#[verifier::spinoff_prover]
proof fn lemma_condition_poor_locator(b: Condition)
    ensures
        seq_contains("Poor"@, "Poor"@),
        b != Condition::Poor ==> {
            &&& !seq_contains(b.label(), "Ruim"@) && !seq_contains(condition_english(b), "Ruim"@)
            &&& !seq_contains(b.label(), "Poor"@) && !seq_contains(condition_english(b), "Poor"@)
            &&& !seq_contains(b.label(), "ruim"@) && !seq_contains(condition_english(b), "ruim"@)
        },
{
    reveal_strlit("Bom");
    reveal_strlit("Excelente");
    reveal_strlit("Fair");
    reveal_strlit("Good");
    reveal_strlit("Like new");
    reveal_strlit("Muito bom");
    reveal_strlit("Poor");
    reveal_strlit("Razoável");
    reveal_strlit("Ruim");
    reveal_strlit("Very good");
    reveal_strlit("ruim");
    reveal_with_fuel(occurs_from, 11);
    reveal_with_fuel(matches_from, 6);
    assert(occurs_at("Poor"@, "Poor"@, 0)) by {
        assert("Poor"@.subrange(0, "Poor"@.len() as int) =~= "Poor"@);
    }
    match b {
        Condition::Excellent => {
            lemma_absent("Excelente"@, "Ruim"@);
            lemma_absent("Excelente"@, "Poor"@);
            lemma_absent("Excelente"@, "ruim"@);
            lemma_absent("Like new"@, "Ruim"@);
            lemma_absent("Like new"@, "Poor"@);
            lemma_absent("Like new"@, "ruim"@);
        },
        Condition::VeryGood => {
            lemma_absent("Muito bom"@, "Ruim"@);
            lemma_absent("Muito bom"@, "Poor"@);
            lemma_absent("Muito bom"@, "ruim"@);
            lemma_absent("Very good"@, "Ruim"@);
            lemma_absent("Very good"@, "Poor"@);
            lemma_absent("Very good"@, "ruim"@);
        },
        Condition::Good => {
            lemma_absent("Bom"@, "Ruim"@);
            lemma_absent("Bom"@, "Poor"@);
            lemma_absent("Bom"@, "ruim"@);
            lemma_absent("Good"@, "Ruim"@);
            lemma_absent("Good"@, "Poor"@);
            lemma_absent("Good"@, "ruim"@);
        },
        Condition::Fair => {
            lemma_absent("Razoável"@, "Ruim"@);
            lemma_absent("Razoável"@, "Poor"@);
            lemma_absent("Razoável"@, "ruim"@);
            lemma_absent("Fair"@, "Ruim"@);
            lemma_absent("Fair"@, "Poor"@);
            lemma_absent("Fair"@, "ruim"@);
        },
        _ => {},
    }
}

/// The locator of a condition option picks that condition's English option,
/// and no option of another condition: none of its terms occurs in another
/// condition's Portuguese or English name, but for "bom", which also occurs
/// in "Muito bom".
pub proof fn lemma_condition_locators(a: Condition, b: Condition)
    ensures
        exists|k: int| 0 <= k < option_terms(a.label()).len() && seq_contains(condition_english(a), #[trigger] option_terms(a.label())[k]),
        a != b && !(a == Condition::Good && b == Condition::VeryGood) ==> forall|k: int| 0 <= k < option_terms(a.label()).len() ==>
            !seq_contains(b.label(), #[trigger] option_terms(a.label())[k])
                && !seq_contains(condition_english(b), option_terms(a.label())[k]),
        a == Condition::Good && b == Condition::VeryGood ==> seq_contains(b.label(), option_terms(a.label())[2]),
{
    lemma_condition_terms(a);
    match a {
        Condition::Excellent => { lemma_condition_excellent_locator(b); assert(seq_contains(condition_english(a), option_terms(a.label())[1])); },
        Condition::VeryGood => { lemma_condition_very_good_locator(b); assert(seq_contains(condition_english(a), option_terms(a.label())[1])); },
        Condition::Good => { lemma_condition_good_locator(b); assert(seq_contains(condition_english(a), option_terms(a.label())[1])); },
        Condition::Fair => { lemma_condition_fair_locator(b); assert(seq_contains(condition_english(a), option_terms(a.label())[1])); },
        Condition::Poor => { lemma_condition_poor_locator(b); assert(seq_contains(condition_english(a), option_terms(a.label())[1])); },
    }
    if a == Condition::Good && b == Condition::VeryGood {
        reveal_strlit("bom");
        reveal_strlit("Muito bom");
        assert(occurs_at("Muito bom"@, "bom"@, 6)) by {
            assert("Muito bom"@.subrange(6, 9) =~= "bom"@);
        }
    }
}

/// The name under which the marketplace shows each body style in English.
pub open spec fn body_style_english(c: BodyStyle) -> Seq<char> {
    match c {
        BodyStyle::Coupe => "Coupe"@,
        BodyStyle::Pickup => "Pickup"@,
        BodyStyle::Sedan => "Sedan"@,
        BodyStyle::Hatchback => "Hatchback"@,
        BodyStyle::Suv => "SUV"@,
        BodyStyle::Convertible => "Convertible"@,
        BodyStyle::StationWagon => "Wagon"@,
        BodyStyle::Minivan => "Minivan"@,
        BodyStyle::CompactCar => "Compact"@,
        BodyStyle::Other => "Other"@,
    }
}

/// The terms of the locator of each body style.
proof fn lemma_body_style_terms(c: BodyStyle)
    ensures
        option_terms(c.label()) == (match c {
            BodyStyle::Coupe => seq!["Cupê"@, "Coupe"@],
            BodyStyle::Pickup => seq!["Picape"@],
            BodyStyle::Sedan => seq!["Sedã"@, "Sedan"@],
            BodyStyle::Hatchback => seq!["Hatch"@, "Hatchback"@],
            BodyStyle::Suv => seq!["SUV"@, "SUV"@],
            BodyStyle::Convertible => seq!["Conversível"@, "Convertible"@],
            BodyStyle::StationWagon => seq!["Station wagon"@, "Wagon"@, "Station"@],
            BodyStyle::Minivan => seq!["Minivan"@, "Minivan"@],
            BodyStyle::CompactCar => seq!["Carro compacto"@, "Compact"@, "Compact car"@],
            BodyStyle::Other => seq!["Outro"@, "Other"@],
        }),
{
    reveal_strlit("Aluguel");
    reveal_strlit("Apartamento");
    reveal_strlit("Barco");
    reveal_strlit("Bom");
    reveal_strlit("Carro compacto");
    reveal_strlit("Carro/picape");
    reveal_strlit("Casa");
    reveal_strlit("Casa geminada");
    reveal_strlit("Comercial/industrial");
    reveal_strlit("Compact");
    reveal_strlit("Compact car");
    reveal_strlit("Conversível");
    reveal_strlit("Convertible");
    reveal_strlit("Coupe");
    reveal_strlit("Cupê");
    reveal_strlit("Diesel");
    reveal_strlit("Elétrico");
    reveal_strlit("Excelente");
    reveal_strlit("Flex");
    reveal_strlit("Gasolina");
    reveal_strlit("Hatch");
    reveal_strlit("Hatchback");
    reveal_strlit("Híbrido");
    reveal_strlit("Híbrido plug-in");
    reveal_strlit("Minivan");
    reveal_strlit("Motocicleta");
    reveal_strlit("Muito bom");
    reveal_strlit("Other");
    reveal_strlit("Outro");
    reveal_strlit("Picape");
    reveal_strlit("Razoável");
    reveal_strlit("Reboque");
    reveal_strlit("Ruim");
    reveal_strlit("SUV");
    reveal_strlit("Sedan");
    reveal_strlit("Sedã");
    reveal_strlit("Station");
    reveal_strlit("Station wagon");
    reveal_strlit("Trailer");
    reveal_strlit("Veículos para esportes");
    reveal_strlit("Wagon");
    reveal_strlit("À venda");
    match c {
        BodyStyle::Coupe => {
            assert("Cupê"@[1] != "Casa"@[1]);
            assert("Cupê"@.len() != "Apartamento"@.len());
            assert("Cupê"@.len() != "Casa geminada"@.len());
            assert("Cupê"@.len() != "À venda"@.len());
            assert("Cupê"@.len() != "Aluguel"@.len());
            assert("Cupê"@.len() != "Carro/picape"@.len());
            assert("Cupê"@.len() != "Motocicleta"@.len());
            assert("Cupê"@.len() != "Veículos para esportes"@.len());
            assert("Cupê"@.len() != "Trailer"@.len());
            assert("Cupê"@.len() != "Reboque"@.len());
            assert("Cupê"@.len() != "Barco"@.len());
            assert("Cupê"@.len() != "Comercial/industrial"@.len());
            assert("Cupê"@.len() != "Excelente"@.len());
            assert("Cupê"@.len() != "Muito bom"@.len());
            assert("Cupê"@.len() != "Bom"@.len());
            assert("Cupê"@.len() != "Razoável"@.len());
            assert("Cupê"@[0] != "Ruim"@[0]);
            assert("Cupê"@.len() != "Gasolina"@.len());
            assert("Cupê"@.len() != "Diesel"@.len());
            assert("Cupê"@.len() != "Híbrido"@.len());
            assert("Cupê"@.len() != "Híbrido plug-in"@.len());
            assert("Cupê"@.len() != "Elétrico"@.len());
            assert("Cupê"@[0] != "Flex"@[0]);
            assert(option_synonyms("Cupê"@) =~= seq!["Coupe"@]);
        },
        BodyStyle::Pickup => {
            assert("Picape"@.len() != "Casa"@.len());
            assert("Picape"@.len() != "Apartamento"@.len());
            assert("Picape"@.len() != "Casa geminada"@.len());
            assert("Picape"@.len() != "À venda"@.len());
            assert("Picape"@.len() != "Aluguel"@.len());
            assert("Picape"@.len() != "Carro/picape"@.len());
            assert("Picape"@.len() != "Motocicleta"@.len());
            assert("Picape"@.len() != "Veículos para esportes"@.len());
            assert("Picape"@.len() != "Trailer"@.len());
            assert("Picape"@.len() != "Reboque"@.len());
            assert("Picape"@.len() != "Barco"@.len());
            assert("Picape"@.len() != "Comercial/industrial"@.len());
            assert("Picape"@.len() != "Excelente"@.len());
            assert("Picape"@.len() != "Muito bom"@.len());
            assert("Picape"@.len() != "Bom"@.len());
            assert("Picape"@.len() != "Razoável"@.len());
            assert("Picape"@.len() != "Ruim"@.len());
            assert("Picape"@.len() != "Gasolina"@.len());
            assert("Picape"@[0] != "Diesel"@[0]);
            assert("Picape"@.len() != "Híbrido"@.len());
            assert("Picape"@.len() != "Híbrido plug-in"@.len());
            assert("Picape"@.len() != "Elétrico"@.len());
            assert("Picape"@.len() != "Flex"@.len());
            assert("Picape"@.len() != "Cupê"@.len());
            assert("Picape"@.len() != "Sedã"@.len());
            assert("Picape"@.len() != "Hatch"@.len());
            assert("Picape"@.len() != "SUV"@.len());
            assert("Picape"@.len() != "Conversível"@.len());
            assert("Picape"@.len() != "Station wagon"@.len());
            assert("Picape"@.len() != "Minivan"@.len());
            assert("Picape"@.len() != "Carro compacto"@.len());
            assert("Picape"@.len() != "Outro"@.len());
            assert(option_synonyms("Picape"@) =~= seq![]);
        },
        BodyStyle::Sedan => {
            assert("Sedã"@[0] != "Casa"@[0]);
            assert("Sedã"@.len() != "Apartamento"@.len());
            assert("Sedã"@.len() != "Casa geminada"@.len());
            assert("Sedã"@.len() != "À venda"@.len());
            assert("Sedã"@.len() != "Aluguel"@.len());
            assert("Sedã"@.len() != "Carro/picape"@.len());
            assert("Sedã"@.len() != "Motocicleta"@.len());
            assert("Sedã"@.len() != "Veículos para esportes"@.len());
            assert("Sedã"@.len() != "Trailer"@.len());
            assert("Sedã"@.len() != "Reboque"@.len());
            assert("Sedã"@.len() != "Barco"@.len());
            assert("Sedã"@.len() != "Comercial/industrial"@.len());
            assert("Sedã"@.len() != "Excelente"@.len());
            assert("Sedã"@.len() != "Muito bom"@.len());
            assert("Sedã"@.len() != "Bom"@.len());
            assert("Sedã"@.len() != "Razoável"@.len());
            assert("Sedã"@[0] != "Ruim"@[0]);
            assert("Sedã"@.len() != "Gasolina"@.len());
            assert("Sedã"@.len() != "Diesel"@.len());
            assert("Sedã"@.len() != "Híbrido"@.len());
            assert("Sedã"@.len() != "Híbrido plug-in"@.len());
            assert("Sedã"@.len() != "Elétrico"@.len());
            assert("Sedã"@[0] != "Flex"@[0]);
            assert("Sedã"@[0] != "Cupê"@[0]);
            assert(option_synonyms("Sedã"@) =~= seq!["Sedan"@]);
        },
        BodyStyle::Hatchback => {
            assert("Hatch"@.len() != "Casa"@.len());
            assert("Hatch"@.len() != "Apartamento"@.len());
            assert("Hatch"@.len() != "Casa geminada"@.len());
            assert("Hatch"@.len() != "À venda"@.len());
            assert("Hatch"@.len() != "Aluguel"@.len());
            assert("Hatch"@.len() != "Carro/picape"@.len());
            assert("Hatch"@.len() != "Motocicleta"@.len());
            assert("Hatch"@.len() != "Veículos para esportes"@.len());
            assert("Hatch"@.len() != "Trailer"@.len());
            assert("Hatch"@.len() != "Reboque"@.len());
            assert("Hatch"@[0] != "Barco"@[0]);
            assert("Hatch"@.len() != "Comercial/industrial"@.len());
            assert("Hatch"@.len() != "Excelente"@.len());
            assert("Hatch"@.len() != "Muito bom"@.len());
            assert("Hatch"@.len() != "Bom"@.len());
            assert("Hatch"@.len() != "Razoável"@.len());
            assert("Hatch"@.len() != "Ruim"@.len());
            assert("Hatch"@.len() != "Gasolina"@.len());
            assert("Hatch"@.len() != "Diesel"@.len());
            assert("Hatch"@.len() != "Híbrido"@.len());
            assert("Hatch"@.len() != "Híbrido plug-in"@.len());
            assert("Hatch"@.len() != "Elétrico"@.len());
            assert("Hatch"@.len() != "Flex"@.len());
            assert("Hatch"@.len() != "Cupê"@.len());
            assert("Hatch"@.len() != "Sedã"@.len());
            assert(option_synonyms("Hatch"@) =~= seq!["Hatchback"@]);
        },
        BodyStyle::Suv => {
            assert("SUV"@.len() != "Casa"@.len());
            assert("SUV"@.len() != "Apartamento"@.len());
            assert("SUV"@.len() != "Casa geminada"@.len());
            assert("SUV"@.len() != "À venda"@.len());
            assert("SUV"@.len() != "Aluguel"@.len());
            assert("SUV"@.len() != "Carro/picape"@.len());
            assert("SUV"@.len() != "Motocicleta"@.len());
            assert("SUV"@.len() != "Veículos para esportes"@.len());
            assert("SUV"@.len() != "Trailer"@.len());
            assert("SUV"@.len() != "Reboque"@.len());
            assert("SUV"@.len() != "Barco"@.len());
            assert("SUV"@.len() != "Comercial/industrial"@.len());
            assert("SUV"@.len() != "Excelente"@.len());
            assert("SUV"@.len() != "Muito bom"@.len());
            assert("SUV"@[0] != "Bom"@[0]);
            assert("SUV"@.len() != "Razoável"@.len());
            assert("SUV"@.len() != "Ruim"@.len());
            assert("SUV"@.len() != "Gasolina"@.len());
            assert("SUV"@.len() != "Diesel"@.len());
            assert("SUV"@.len() != "Híbrido"@.len());
            assert("SUV"@.len() != "Híbrido plug-in"@.len());
            assert("SUV"@.len() != "Elétrico"@.len());
            assert("SUV"@.len() != "Flex"@.len());
            assert("SUV"@.len() != "Cupê"@.len());
            assert("SUV"@.len() != "Sedã"@.len());
            assert("SUV"@.len() != "Hatch"@.len());
            assert(option_synonyms("SUV"@) =~= seq!["SUV"@]);
        },
        BodyStyle::Convertible => {
            assert("Conversível"@.len() != "Casa"@.len());
            assert("Conversível"@[0] != "Apartamento"@[0]);
            assert("Conversível"@.len() != "Casa geminada"@.len());
            assert("Conversível"@.len() != "À venda"@.len());
            assert("Conversível"@.len() != "Aluguel"@.len());
            assert("Conversível"@.len() != "Carro/picape"@.len());
            assert("Conversível"@[0] != "Motocicleta"@[0]);
            assert("Conversível"@.len() != "Veículos para esportes"@.len());
            assert("Conversível"@.len() != "Trailer"@.len());
            assert("Conversível"@.len() != "Reboque"@.len());
            assert("Conversível"@.len() != "Barco"@.len());
            assert("Conversível"@.len() != "Comercial/industrial"@.len());
            assert("Conversível"@.len() != "Excelente"@.len());
            assert("Conversível"@.len() != "Muito bom"@.len());
            assert("Conversível"@.len() != "Bom"@.len());
            assert("Conversível"@.len() != "Razoável"@.len());
            assert("Conversível"@.len() != "Ruim"@.len());
            assert("Conversível"@.len() != "Gasolina"@.len());
            assert("Conversível"@.len() != "Diesel"@.len());
            assert("Conversível"@.len() != "Híbrido"@.len());
            assert("Conversível"@.len() != "Híbrido plug-in"@.len());
            assert("Conversível"@.len() != "Elétrico"@.len());
            assert("Conversível"@.len() != "Flex"@.len());
            assert("Conversível"@.len() != "Cupê"@.len());
            assert("Conversível"@.len() != "Sedã"@.len());
            assert("Conversível"@.len() != "Hatch"@.len());
            assert("Conversível"@.len() != "SUV"@.len());
            assert(option_synonyms("Conversível"@) =~= seq!["Convertible"@]);
        },
        BodyStyle::StationWagon => {
            assert("Station wagon"@.len() != "Casa"@.len());
            assert("Station wagon"@.len() != "Apartamento"@.len());
            assert("Station wagon"@[0] != "Casa geminada"@[0]);
            assert("Station wagon"@.len() != "À venda"@.len());
            assert("Station wagon"@.len() != "Aluguel"@.len());
            assert("Station wagon"@.len() != "Carro/picape"@.len());
            assert("Station wagon"@.len() != "Motocicleta"@.len());
            assert("Station wagon"@.len() != "Veículos para esportes"@.len());
            assert("Station wagon"@.len() != "Trailer"@.len());
            assert("Station wagon"@.len() != "Reboque"@.len());
            assert("Station wagon"@.len() != "Barco"@.len());
            assert("Station wagon"@.len() != "Comercial/industrial"@.len());
            assert("Station wagon"@.len() != "Excelente"@.len());
            assert("Station wagon"@.len() != "Muito bom"@.len());
            assert("Station wagon"@.len() != "Bom"@.len());
            assert("Station wagon"@.len() != "Razoável"@.len());
            assert("Station wagon"@.len() != "Ruim"@.len());
            assert("Station wagon"@.len() != "Gasolina"@.len());
            assert("Station wagon"@.len() != "Diesel"@.len());
            assert("Station wagon"@.len() != "Híbrido"@.len());
            assert("Station wagon"@.len() != "Híbrido plug-in"@.len());
            assert("Station wagon"@.len() != "Elétrico"@.len());
            assert("Station wagon"@.len() != "Flex"@.len());
            assert("Station wagon"@.len() != "Cupê"@.len());
            assert("Station wagon"@.len() != "Sedã"@.len());
            assert("Station wagon"@.len() != "Hatch"@.len());
            assert("Station wagon"@.len() != "SUV"@.len());
            assert("Station wagon"@.len() != "Conversível"@.len());
            assert(option_synonyms("Station wagon"@) =~= seq!["Wagon"@, "Station"@]);
        },
        BodyStyle::Minivan => {
            assert("Minivan"@.len() != "Casa"@.len());
            assert("Minivan"@.len() != "Apartamento"@.len());
            assert("Minivan"@.len() != "Casa geminada"@.len());
            assert("Minivan"@[0] != "À venda"@[0]);
            assert("Minivan"@[0] != "Aluguel"@[0]);
            assert("Minivan"@.len() != "Carro/picape"@.len());
            assert("Minivan"@.len() != "Motocicleta"@.len());
            assert("Minivan"@.len() != "Veículos para esportes"@.len());
            assert("Minivan"@[0] != "Trailer"@[0]);
            assert("Minivan"@[0] != "Reboque"@[0]);
            assert("Minivan"@.len() != "Barco"@.len());
            assert("Minivan"@.len() != "Comercial/industrial"@.len());
            assert("Minivan"@.len() != "Excelente"@.len());
            assert("Minivan"@.len() != "Muito bom"@.len());
            assert("Minivan"@.len() != "Bom"@.len());
            assert("Minivan"@.len() != "Razoável"@.len());
            assert("Minivan"@.len() != "Ruim"@.len());
            assert("Minivan"@.len() != "Gasolina"@.len());
            assert("Minivan"@.len() != "Diesel"@.len());
            assert("Minivan"@[0] != "Híbrido"@[0]);
            assert("Minivan"@.len() != "Híbrido plug-in"@.len());
            assert("Minivan"@.len() != "Elétrico"@.len());
            assert("Minivan"@.len() != "Flex"@.len());
            assert("Minivan"@.len() != "Cupê"@.len());
            assert("Minivan"@.len() != "Sedã"@.len());
            assert("Minivan"@.len() != "Hatch"@.len());
            assert("Minivan"@.len() != "SUV"@.len());
            assert("Minivan"@.len() != "Conversível"@.len());
            assert("Minivan"@.len() != "Station wagon"@.len());
            assert(option_synonyms("Minivan"@) =~= seq!["Minivan"@]);
        },
        BodyStyle::CompactCar => {
            assert("Carro compacto"@.len() != "Casa"@.len());
            assert("Carro compacto"@.len() != "Apartamento"@.len());
            assert("Carro compacto"@.len() != "Casa geminada"@.len());
            assert("Carro compacto"@.len() != "À venda"@.len());
            assert("Carro compacto"@.len() != "Aluguel"@.len());
            assert("Carro compacto"@.len() != "Carro/picape"@.len());
            assert("Carro compacto"@.len() != "Motocicleta"@.len());
            assert("Carro compacto"@.len() != "Veículos para esportes"@.len());
            assert("Carro compacto"@.len() != "Trailer"@.len());
            assert("Carro compacto"@.len() != "Reboque"@.len());
            assert("Carro compacto"@.len() != "Barco"@.len());
            assert("Carro compacto"@.len() != "Comercial/industrial"@.len());
            assert("Carro compacto"@.len() != "Excelente"@.len());
            assert("Carro compacto"@.len() != "Muito bom"@.len());
            assert("Carro compacto"@.len() != "Bom"@.len());
            assert("Carro compacto"@.len() != "Razoável"@.len());
            assert("Carro compacto"@.len() != "Ruim"@.len());
            assert("Carro compacto"@.len() != "Gasolina"@.len());
            assert("Carro compacto"@.len() != "Diesel"@.len());
            assert("Carro compacto"@.len() != "Híbrido"@.len());
            assert("Carro compacto"@.len() != "Híbrido plug-in"@.len());
            assert("Carro compacto"@.len() != "Elétrico"@.len());
            assert("Carro compacto"@.len() != "Flex"@.len());
            assert("Carro compacto"@.len() != "Cupê"@.len());
            assert("Carro compacto"@.len() != "Sedã"@.len());
            assert("Carro compacto"@.len() != "Hatch"@.len());
            assert("Carro compacto"@.len() != "SUV"@.len());
            assert("Carro compacto"@.len() != "Conversível"@.len());
            assert("Carro compacto"@.len() != "Station wagon"@.len());
            assert("Carro compacto"@.len() != "Minivan"@.len());
            assert(option_synonyms("Carro compacto"@) =~= seq!["Compact"@, "Compact car"@]);
        },
        BodyStyle::Other => {
            assert("Outro"@.len() != "Casa"@.len());
            assert("Outro"@.len() != "Apartamento"@.len());
            assert("Outro"@.len() != "Casa geminada"@.len());
            assert("Outro"@.len() != "À venda"@.len());
            assert("Outro"@.len() != "Aluguel"@.len());
            assert("Outro"@.len() != "Carro/picape"@.len());
            assert("Outro"@.len() != "Motocicleta"@.len());
            assert("Outro"@.len() != "Veículos para esportes"@.len());
            assert("Outro"@.len() != "Trailer"@.len());
            assert("Outro"@.len() != "Reboque"@.len());
            assert("Outro"@[0] != "Barco"@[0]);
            assert("Outro"@.len() != "Comercial/industrial"@.len());
            assert("Outro"@.len() != "Excelente"@.len());
            assert("Outro"@.len() != "Muito bom"@.len());
            assert("Outro"@.len() != "Bom"@.len());
            assert("Outro"@.len() != "Razoável"@.len());
            assert("Outro"@.len() != "Ruim"@.len());
            assert("Outro"@.len() != "Gasolina"@.len());
            assert("Outro"@.len() != "Diesel"@.len());
            assert("Outro"@.len() != "Híbrido"@.len());
            assert("Outro"@.len() != "Híbrido plug-in"@.len());
            assert("Outro"@.len() != "Elétrico"@.len());
            assert("Outro"@.len() != "Flex"@.len());
            assert("Outro"@.len() != "Cupê"@.len());
            assert("Outro"@.len() != "Sedã"@.len());
            assert("Outro"@[0] != "Hatch"@[0]);
            assert("Outro"@.len() != "SUV"@.len());
            assert("Outro"@.len() != "Conversível"@.len());
            assert("Outro"@.len() != "Station wagon"@.len());
            assert("Outro"@.len() != "Minivan"@.len());
            assert("Outro"@.len() != "Carro compacto"@.len());
            assert(option_synonyms("Outro"@) =~= seq!["Other"@]);
        },
    }
    assert(option_terms(c.label()) =~= (match c {
            BodyStyle::Coupe => seq!["Cupê"@, "Coupe"@],
            BodyStyle::Pickup => seq!["Picape"@],
            BodyStyle::Sedan => seq!["Sedã"@, "Sedan"@],
            BodyStyle::Hatchback => seq!["Hatch"@, "Hatchback"@],
            BodyStyle::Suv => seq!["SUV"@, "SUV"@],
            BodyStyle::Convertible => seq!["Conversível"@, "Convertible"@],
            BodyStyle::StationWagon => seq!["Station wagon"@, "Wagon"@, "Station"@],
            BodyStyle::Minivan => seq!["Minivan"@, "Minivan"@],
            BodyStyle::CompactCar => seq!["Carro compacto"@, "Compact"@, "Compact car"@],
            BodyStyle::Other => seq!["Outro"@, "Other"@],
    }));
}

#[verifier::spinoff_prover]
proof fn lemma_body_style_coupe_locator(b: BodyStyle)
    ensures
        seq_contains("Coupe"@, "Coupe"@),
        b != BodyStyle::Coupe ==> {
            &&& !seq_contains(b.label(), "Cupê"@) && !seq_contains(body_style_english(b), "Cupê"@)
            &&& !seq_contains(b.label(), "Coupe"@) && !seq_contains(body_style_english(b), "Coupe"@)
        },
{
    reveal_strlit("Carro compacto");
    reveal_strlit("Compact");
    reveal_strlit("Conversível");
    reveal_strlit("Convertible");
    reveal_strlit("Coupe");
    reveal_strlit("Cupê");
    reveal_strlit("Hatch");
    reveal_strlit("Hatchback");
    reveal_strlit("Minivan");
    reveal_strlit("Other");
    reveal_strlit("Outro");
    reveal_strlit("Picape");
    reveal_strlit("Pickup");
    reveal_strlit("SUV");
    reveal_strlit("Sedan");
    reveal_strlit("Sedã");
    reveal_strlit("Station wagon");
    reveal_strlit("Wagon");
    reveal_with_fuel(occurs_from, 16);
    reveal_with_fuel(matches_from, 7);
    assert(occurs_at("Coupe"@, "Coupe"@, 0)) by {
        assert("Coupe"@.subrange(0, "Coupe"@.len() as int) =~= "Coupe"@);
    }
    match b {
        BodyStyle::Pickup => {
            lemma_absent("Picape"@, "Cupê"@);
            lemma_absent("Picape"@, "Coupe"@);
            lemma_absent("Pickup"@, "Cupê"@);
            lemma_absent("Pickup"@, "Coupe"@);
        },
        BodyStyle::Sedan => {
            lemma_absent("Sedã"@, "Cupê"@);
            lemma_absent("Sedã"@, "Coupe"@);
            lemma_absent("Sedan"@, "Cupê"@);
            lemma_absent("Sedan"@, "Coupe"@);
        },
        BodyStyle::Hatchback => {
            lemma_absent("Hatch"@, "Cupê"@);
            lemma_absent("Hatch"@, "Coupe"@);
            lemma_absent("Hatchback"@, "Cupê"@);
            lemma_absent("Hatchback"@, "Coupe"@);
        },
        BodyStyle::Suv => {
            lemma_absent("SUV"@, "Cupê"@);
            lemma_absent("SUV"@, "Coupe"@);
        },
        BodyStyle::Convertible => {
            lemma_absent("Conversível"@, "Cupê"@);
            lemma_absent("Conversível"@, "Coupe"@);
            lemma_absent("Convertible"@, "Cupê"@);
            lemma_absent("Convertible"@, "Coupe"@);
        },
        BodyStyle::StationWagon => {
            lemma_absent("Station wagon"@, "Cupê"@);
            lemma_absent("Station wagon"@, "Coupe"@);
            lemma_absent("Wagon"@, "Cupê"@);
            lemma_absent("Wagon"@, "Coupe"@);
        },
        BodyStyle::Minivan => {
            lemma_absent("Minivan"@, "Cupê"@);
            lemma_absent("Minivan"@, "Coupe"@);
        },
        BodyStyle::CompactCar => {
            lemma_absent("Carro compacto"@, "Cupê"@);
            lemma_absent("Carro compacto"@, "Coupe"@);
            lemma_absent("Compact"@, "Cupê"@);
            lemma_absent("Compact"@, "Coupe"@);
        },
        BodyStyle::Other => {
            lemma_absent("Outro"@, "Cupê"@);
            lemma_absent("Outro"@, "Coupe"@);
            lemma_absent("Other"@, "Cupê"@);
            lemma_absent("Other"@, "Coupe"@);
        },
        _ => {},
    }
}

#[verifier::spinoff_prover]
proof fn lemma_body_style_pickup_locator(b: BodyStyle)
    ensures
        b != BodyStyle::Pickup ==> {
            &&& !seq_contains(b.label(), "Picape"@) && !seq_contains(body_style_english(b), "Picape"@)
        },
{
    reveal_strlit("Carro compacto");
    reveal_strlit("Compact");
    reveal_strlit("Conversível");
    reveal_strlit("Convertible");
    reveal_strlit("Coupe");
    reveal_strlit("Cupê");
    reveal_strlit("Hatch");
    reveal_strlit("Hatchback");
    reveal_strlit("Minivan");
    reveal_strlit("Other");
    reveal_strlit("Outro");
    reveal_strlit("Picape");
    reveal_strlit("Pickup");
    reveal_strlit("SUV");
    reveal_strlit("Sedan");
    reveal_strlit("Sedã");
    reveal_strlit("Station wagon");
    reveal_strlit("Wagon");
    reveal_with_fuel(occurs_from, 16);
    reveal_with_fuel(matches_from, 8);

    match b {
        BodyStyle::Coupe => {
            lemma_absent("Cupê"@, "Picape"@);
            lemma_absent("Coupe"@, "Picape"@);
        },
        BodyStyle::Sedan => {
            lemma_absent("Sedã"@, "Picape"@);
            lemma_absent("Sedan"@, "Picape"@);
        },
        BodyStyle::Hatchback => {
            lemma_absent("Hatch"@, "Picape"@);
            lemma_absent("Hatchback"@, "Picape"@);
        },
        BodyStyle::Suv => {
            lemma_absent("SUV"@, "Picape"@);
        },
        BodyStyle::Convertible => {
            lemma_absent("Conversível"@, "Picape"@);
            lemma_absent("Convertible"@, "Picape"@);
        },
        BodyStyle::StationWagon => {
            lemma_absent("Station wagon"@, "Picape"@);
            lemma_absent("Wagon"@, "Picape"@);
        },
        BodyStyle::Minivan => {
            lemma_absent("Minivan"@, "Picape"@);
        },
        BodyStyle::CompactCar => {
            lemma_absent("Carro compacto"@, "Picape"@);
            lemma_absent("Compact"@, "Picape"@);
        },
        BodyStyle::Other => {
            lemma_absent("Outro"@, "Picape"@);
            lemma_absent("Other"@, "Picape"@);
        },
        _ => {},
    }
}

#[verifier::spinoff_prover]
proof fn lemma_body_style_sedan_locator(b: BodyStyle)
    ensures
        seq_contains("Sedan"@, "Sedan"@),
        b != BodyStyle::Sedan ==> {
            &&& !seq_contains(b.label(), "Sedã"@) && !seq_contains(body_style_english(b), "Sedã"@)
            &&& !seq_contains(b.label(), "Sedan"@) && !seq_contains(body_style_english(b), "Sedan"@)
        },
{
    reveal_strlit("Carro compacto");
    reveal_strlit("Compact");
    reveal_strlit("Conversível");
    reveal_strlit("Convertible");
    reveal_strlit("Coupe");
    reveal_strlit("Cupê");
    reveal_strlit("Hatch");
    reveal_strlit("Hatchback");
    reveal_strlit("Minivan");
    reveal_strlit("Other");
    reveal_strlit("Outro");
    reveal_strlit("Picape");
    reveal_strlit("Pickup");
    reveal_strlit("SUV");
    reveal_strlit("Sedan");
    reveal_strlit("Sedã");
    reveal_strlit("Station wagon");
    reveal_strlit("Wagon");
    reveal_with_fuel(occurs_from, 16);
    reveal_with_fuel(matches_from, 7);
    assert(occurs_at("Sedan"@, "Sedan"@, 0)) by {
        assert("Sedan"@.subrange(0, "Sedan"@.len() as int) =~= "Sedan"@);
    }
    match b {
        BodyStyle::Coupe => {
            lemma_absent("Cupê"@, "Sedã"@);
            lemma_absent("Cupê"@, "Sedan"@);
            lemma_absent("Coupe"@, "Sedã"@);
            lemma_absent("Coupe"@, "Sedan"@);
        },
        BodyStyle::Pickup => {
            lemma_absent("Picape"@, "Sedã"@);
            lemma_absent("Picape"@, "Sedan"@);
            lemma_absent("Pickup"@, "Sedã"@);
            lemma_absent("Pickup"@, "Sedan"@);
        },
        BodyStyle::Hatchback => {
            lemma_absent("Hatch"@, "Sedã"@);
            lemma_absent("Hatch"@, "Sedan"@);
            lemma_absent("Hatchback"@, "Sedã"@);
            lemma_absent("Hatchback"@, "Sedan"@);
        },
        BodyStyle::Suv => {
            lemma_absent("SUV"@, "Sedã"@);
            lemma_absent("SUV"@, "Sedan"@);
        },
        BodyStyle::Convertible => {
            lemma_absent("Conversível"@, "Sedã"@);
            lemma_absent("Conversível"@, "Sedan"@);
            lemma_absent("Convertible"@, "Sedã"@);
            lemma_absent("Convertible"@, "Sedan"@);
        },
        BodyStyle::StationWagon => {
            lemma_absent("Station wagon"@, "Sedã"@);
            lemma_absent("Station wagon"@, "Sedan"@);
            lemma_absent("Wagon"@, "Sedã"@);
            lemma_absent("Wagon"@, "Sedan"@);
        },
        BodyStyle::Minivan => {
            lemma_absent("Minivan"@, "Sedã"@);
            lemma_absent("Minivan"@, "Sedan"@);
        },
        BodyStyle::CompactCar => {
            lemma_absent("Carro compacto"@, "Sedã"@);
            lemma_absent("Carro compacto"@, "Sedan"@);
            lemma_absent("Compact"@, "Sedã"@);
            lemma_absent("Compact"@, "Sedan"@);
        },
        BodyStyle::Other => {
            lemma_absent("Outro"@, "Sedã"@);
            lemma_absent("Outro"@, "Sedan"@);
            lemma_absent("Other"@, "Sedã"@);
            lemma_absent("Other"@, "Sedan"@);
        },
        _ => {},
    }
}

#[verifier::spinoff_prover]
proof fn lemma_body_style_hatchback_locator(b: BodyStyle)
    ensures
        seq_contains("Hatchback"@, "Hatch"@),
        b != BodyStyle::Hatchback ==> {
            &&& !seq_contains(b.label(), "Hatch"@) && !seq_contains(body_style_english(b), "Hatch"@)
            &&& !seq_contains(b.label(), "Hatchback"@) && !seq_contains(body_style_english(b), "Hatchback"@)
        },
{
    reveal_strlit("Carro compacto");
    reveal_strlit("Compact");
    reveal_strlit("Conversível");
    reveal_strlit("Convertible");
    reveal_strlit("Coupe");
    reveal_strlit("Cupê");
    reveal_strlit("Hatch");
    reveal_strlit("Hatchback");
    reveal_strlit("Minivan");
    reveal_strlit("Other");
    reveal_strlit("Outro");
    reveal_strlit("Picape");
    reveal_strlit("Pickup");
    reveal_strlit("SUV");
    reveal_strlit("Sedan");
    reveal_strlit("Sedã");
    reveal_strlit("Station wagon");
    reveal_strlit("Wagon");
    reveal_with_fuel(occurs_from, 16);
    reveal_with_fuel(matches_from, 11);
    assert(occurs_from("Hatchback"@, "Hatch"@, 0)) by {
        reveal_strlit("Hatchback");
        reveal_strlit("Hatch");
        reveal_with_fuel(occurs_from, 11);
        reveal_with_fuel(matches_from, 7);
    }
    lemma_occurs_from_start("Hatchback"@, "Hatch"@);
    match b {
        BodyStyle::Coupe => {
            lemma_absent("Cupê"@, "Hatch"@);
            lemma_absent("Cupê"@, "Hatchback"@);
            lemma_absent("Coupe"@, "Hatch"@);
            lemma_absent("Coupe"@, "Hatchback"@);
        },
        BodyStyle::Pickup => {
            lemma_absent("Picape"@, "Hatch"@);
            lemma_absent("Picape"@, "Hatchback"@);
            lemma_absent("Pickup"@, "Hatch"@);
            lemma_absent("Pickup"@, "Hatchback"@);
        },
        BodyStyle::Sedan => {
            lemma_absent("Sedã"@, "Hatch"@);
            lemma_absent("Sedã"@, "Hatchback"@);
            lemma_absent("Sedan"@, "Hatch"@);
            lemma_absent("Sedan"@, "Hatchback"@);
        },
        BodyStyle::Suv => {
            lemma_absent("SUV"@, "Hatch"@);
            lemma_absent("SUV"@, "Hatchback"@);
        },
        BodyStyle::Convertible => {
            lemma_absent("Conversível"@, "Hatch"@);
            lemma_absent("Conversível"@, "Hatchback"@);
            lemma_absent("Convertible"@, "Hatch"@);
            lemma_absent("Convertible"@, "Hatchback"@);
        },
        BodyStyle::StationWagon => {
            lemma_absent("Station wagon"@, "Hatch"@);
            lemma_absent("Station wagon"@, "Hatchback"@);
            lemma_absent("Wagon"@, "Hatch"@);
            lemma_absent("Wagon"@, "Hatchback"@);
        },
        BodyStyle::Minivan => {
            lemma_absent("Minivan"@, "Hatch"@);
            lemma_absent("Minivan"@, "Hatchback"@);
        },
        BodyStyle::CompactCar => {
            lemma_absent("Carro compacto"@, "Hatch"@);
            lemma_absent("Carro compacto"@, "Hatchback"@);
            lemma_absent("Compact"@, "Hatch"@);
            lemma_absent("Compact"@, "Hatchback"@);
        },
        BodyStyle::Other => {
            lemma_absent("Outro"@, "Hatch"@);
            lemma_absent("Outro"@, "Hatchback"@);
            lemma_absent("Other"@, "Hatch"@);
            lemma_absent("Other"@, "Hatchback"@);
        },
        _ => {},
    }
}

#[verifier::spinoff_prover]
proof fn lemma_body_style_suv_locator(b: BodyStyle)
    ensures
        seq_contains("SUV"@, "SUV"@),
        b != BodyStyle::Suv ==> {
            &&& !seq_contains(b.label(), "SUV"@) && !seq_contains(body_style_english(b), "SUV"@)
        },
{
    reveal_strlit("Carro compacto");
    reveal_strlit("Compact");
    reveal_strlit("Conversível");
    reveal_strlit("Convertible");
    reveal_strlit("Coupe");
    reveal_strlit("Cupê");
    reveal_strlit("Hatch");
    reveal_strlit("Hatchback");
    reveal_strlit("Minivan");
    reveal_strlit("Other");
    reveal_strlit("Outro");
    reveal_strlit("Picape");
    reveal_strlit("Pickup");
    reveal_strlit("SUV");
    reveal_strlit("Sedan");
    reveal_strlit("Sedã");
    reveal_strlit("Station wagon");
    reveal_strlit("Wagon");
    reveal_with_fuel(occurs_from, 16);
    reveal_with_fuel(matches_from, 5);
    assert(occurs_at("SUV"@, "SUV"@, 0)) by {
        assert("SUV"@.subrange(0, "SUV"@.len() as int) =~= "SUV"@);
    }
    match b {
        BodyStyle::Coupe => {
            lemma_absent("Cupê"@, "SUV"@);
            lemma_absent("Coupe"@, "SUV"@);
        },
        BodyStyle::Pickup => {
            lemma_absent("Picape"@, "SUV"@);
            lemma_absent("Pickup"@, "SUV"@);
        },
        BodyStyle::Sedan => {
            lemma_absent("Sedã"@, "SUV"@);
            lemma_absent("Sedan"@, "SUV"@);
        },
        BodyStyle::Hatchback => {
            lemma_absent("Hatch"@, "SUV"@);
            lemma_absent("Hatchback"@, "SUV"@);
        },
        BodyStyle::Convertible => {
            lemma_absent("Conversível"@, "SUV"@);
            lemma_absent("Convertible"@, "SUV"@);
        },
        BodyStyle::StationWagon => {
            lemma_absent("Station wagon"@, "SUV"@);
            lemma_absent("Wagon"@, "SUV"@);
        },
        BodyStyle::Minivan => {
            lemma_absent("Minivan"@, "SUV"@);
        },
        BodyStyle::CompactCar => {
            lemma_absent("Carro compacto"@, "SUV"@);
            lemma_absent("Compact"@, "SUV"@);
        },
        BodyStyle::Other => {
            lemma_absent("Outro"@, "SUV"@);
            lemma_absent("Other"@, "SUV"@);
        },
        _ => {},
    }
}

#[verifier::spinoff_prover]
proof fn lemma_body_style_convertible_locator(b: BodyStyle)
    ensures
        seq_contains("Convertible"@, "Convertible"@),
        b != BodyStyle::Convertible ==> {
            &&& !seq_contains(b.label(), "Conversível"@) && !seq_contains(body_style_english(b), "Conversível"@)
            &&& !seq_contains(b.label(), "Convertible"@) && !seq_contains(body_style_english(b), "Convertible"@)
        },
{
    reveal_strlit("Carro compacto");
    reveal_strlit("Compact");
    reveal_strlit("Conversível");
    reveal_strlit("Convertible");
    reveal_strlit("Coupe");
    reveal_strlit("Cupê");
    reveal_strlit("Hatch");
    reveal_strlit("Hatchback");
    reveal_strlit("Minivan");
    reveal_strlit("Other");
    reveal_strlit("Outro");
    reveal_strlit("Picape");
    reveal_strlit("Pickup");
    reveal_strlit("SUV");
    reveal_strlit("Sedan");
    reveal_strlit("Sedã");
    reveal_strlit("Station wagon");
    reveal_strlit("Wagon");
    reveal_with_fuel(occurs_from, 16);
    reveal_with_fuel(matches_from, 13);
    assert(occurs_at("Convertible"@, "Convertible"@, 0)) by {
        assert("Convertible"@.subrange(0, "Convertible"@.len() as int) =~= "Convertible"@);
    }
    match b {
        BodyStyle::Coupe => {
            lemma_absent("Cupê"@, "Conversível"@);
            lemma_absent("Cupê"@, "Convertible"@);
            lemma_absent("Coupe"@, "Conversível"@);
            lemma_absent("Coupe"@, "Convertible"@);
        },
        BodyStyle::Pickup => {
            lemma_absent("Picape"@, "Conversível"@);
            lemma_absent("Picape"@, "Convertible"@);
            lemma_absent("Pickup"@, "Conversível"@);
            lemma_absent("Pickup"@, "Convertible"@);
        },
        BodyStyle::Sedan => {
            lemma_absent("Sedã"@, "Conversível"@);
            lemma_absent("Sedã"@, "Convertible"@);
            lemma_absent("Sedan"@, "Conversível"@);
            lemma_absent("Sedan"@, "Convertible"@);
        },
        BodyStyle::Hatchback => {
            lemma_absent("Hatch"@, "Conversível"@);
            lemma_absent("Hatch"@, "Convertible"@);
            lemma_absent("Hatchback"@, "Conversível"@);
            lemma_absent("Hatchback"@, "Convertible"@);
        },
        BodyStyle::Suv => {
            lemma_absent("SUV"@, "Conversível"@);
            lemma_absent("SUV"@, "Convertible"@);
        },
        BodyStyle::StationWagon => {
            lemma_absent("Station wagon"@, "Conversível"@);
            lemma_absent("Station wagon"@, "Convertible"@);
            lemma_absent("Wagon"@, "Conversível"@);
            lemma_absent("Wagon"@, "Convertible"@);
        },
        BodyStyle::Minivan => {
            lemma_absent("Minivan"@, "Conversível"@);
            lemma_absent("Minivan"@, "Convertible"@);
        },
        BodyStyle::CompactCar => {
            lemma_absent("Carro compacto"@, "Conversível"@);
            lemma_absent("Carro compacto"@, "Convertible"@);
            lemma_absent("Compact"@, "Conversível"@);
            lemma_absent("Compact"@, "Convertible"@);
        },
        BodyStyle::Other => {
            lemma_absent("Outro"@, "Conversível"@);
            lemma_absent("Outro"@, "Convertible"@);
            lemma_absent("Other"@, "Conversível"@);
            lemma_absent("Other"@, "Convertible"@);
        },
        _ => {},
    }
}

#[verifier::spinoff_prover]
proof fn lemma_body_style_station_wagon_locator(b: BodyStyle)
    ensures
        seq_contains("Wagon"@, "Wagon"@),
        b != BodyStyle::StationWagon ==> {
            &&& !seq_contains(b.label(), "Station wagon"@) && !seq_contains(body_style_english(b), "Station wagon"@)
            &&& !seq_contains(b.label(), "Wagon"@) && !seq_contains(body_style_english(b), "Wagon"@)
            &&& !seq_contains(b.label(), "Station"@) && !seq_contains(body_style_english(b), "Station"@)
        },
{
    reveal_strlit("Carro compacto");
    reveal_strlit("Compact");
    reveal_strlit("Conversível");
    reveal_strlit("Convertible");
    reveal_strlit("Coupe");
    reveal_strlit("Cupê");
    reveal_strlit("Hatch");
    reveal_strlit("Hatchback");
    reveal_strlit("Minivan");
    reveal_strlit("Other");
    reveal_strlit("Outro");
    reveal_strlit("Picape");
    reveal_strlit("Pickup");
    reveal_strlit("SUV");
    reveal_strlit("Sedan");
    reveal_strlit("Sedã");
    reveal_strlit("Station");
    reveal_strlit("Station wagon");
    reveal_strlit("Wagon");
    reveal_with_fuel(occurs_from, 16);
    reveal_with_fuel(matches_from, 15);
    assert(occurs_at("Wagon"@, "Wagon"@, 0)) by {
        assert("Wagon"@.subrange(0, "Wagon"@.len() as int) =~= "Wagon"@);
    }
    match b {
        BodyStyle::Coupe => {
            lemma_absent("Cupê"@, "Station wagon"@);
            lemma_absent("Cupê"@, "Wagon"@);
            lemma_absent("Cupê"@, "Station"@);
            lemma_absent("Coupe"@, "Station wagon"@);
            lemma_absent("Coupe"@, "Wagon"@);
            lemma_absent("Coupe"@, "Station"@);
        },
        BodyStyle::Pickup => {
            lemma_absent("Picape"@, "Station wagon"@);
            lemma_absent("Picape"@, "Wagon"@);
            lemma_absent("Picape"@, "Station"@);
            lemma_absent("Pickup"@, "Station wagon"@);
            lemma_absent("Pickup"@, "Wagon"@);
            lemma_absent("Pickup"@, "Station"@);
        },
        BodyStyle::Sedan => {
            lemma_absent("Sedã"@, "Station wagon"@);
            lemma_absent("Sedã"@, "Wagon"@);
            lemma_absent("Sedã"@, "Station"@);
            lemma_absent("Sedan"@, "Station wagon"@);
            lemma_absent("Sedan"@, "Wagon"@);
            lemma_absent("Sedan"@, "Station"@);
        },
        BodyStyle::Hatchback => {
            lemma_absent("Hatch"@, "Station wagon"@);
            lemma_absent("Hatch"@, "Wagon"@);
            lemma_absent("Hatch"@, "Station"@);
            lemma_absent("Hatchback"@, "Station wagon"@);
            lemma_absent("Hatchback"@, "Wagon"@);
            lemma_absent("Hatchback"@, "Station"@);
        },
        BodyStyle::Suv => {
            lemma_absent("SUV"@, "Station wagon"@);
            lemma_absent("SUV"@, "Wagon"@);
            lemma_absent("SUV"@, "Station"@);
        },
        BodyStyle::Convertible => {
            lemma_absent("Conversível"@, "Station wagon"@);
            lemma_absent("Conversível"@, "Wagon"@);
            lemma_absent("Conversível"@, "Station"@);
            lemma_absent("Convertible"@, "Station wagon"@);
            lemma_absent("Convertible"@, "Wagon"@);
            lemma_absent("Convertible"@, "Station"@);
        },
        BodyStyle::Minivan => {
            lemma_absent("Minivan"@, "Station wagon"@);
            lemma_absent("Minivan"@, "Wagon"@);
            lemma_absent("Minivan"@, "Station"@);
        },
        BodyStyle::CompactCar => {
            lemma_absent("Carro compacto"@, "Station wagon"@);
            lemma_absent("Carro compacto"@, "Wagon"@);
            lemma_absent("Carro compacto"@, "Station"@);
            lemma_absent("Compact"@, "Station wagon"@);
            lemma_absent("Compact"@, "Wagon"@);
            lemma_absent("Compact"@, "Station"@);
        },
        BodyStyle::Other => {
            lemma_absent("Outro"@, "Station wagon"@);
            lemma_absent("Outro"@, "Wagon"@);
            lemma_absent("Outro"@, "Station"@);
            lemma_absent("Other"@, "Station wagon"@);
            lemma_absent("Other"@, "Wagon"@);
            lemma_absent("Other"@, "Station"@);
        },
        _ => {},
    }
}

#[verifier::spinoff_prover]
proof fn lemma_body_style_minivan_locator(b: BodyStyle)
    ensures
        seq_contains("Minivan"@, "Minivan"@),
        b != BodyStyle::Minivan ==> {
            &&& !seq_contains(b.label(), "Minivan"@) && !seq_contains(body_style_english(b), "Minivan"@)
        },
{
    reveal_strlit("Carro compacto");
    reveal_strlit("Compact");
    reveal_strlit("Conversível");
    reveal_strlit("Convertible");
    reveal_strlit("Coupe");
    reveal_strlit("Cupê");
    reveal_strlit("Hatch");
    reveal_strlit("Hatchback");
    reveal_strlit("Minivan");
    reveal_strlit("Other");
    reveal_strlit("Outro");
    reveal_strlit("Picape");
    reveal_strlit("Pickup");
    reveal_strlit("SUV");
    reveal_strlit("Sedan");
    reveal_strlit("Sedã");
    reveal_strlit("Station wagon");
    reveal_strlit("Wagon");
    reveal_with_fuel(occurs_from, 16);
    reveal_with_fuel(matches_from, 9);
    assert(occurs_at("Minivan"@, "Minivan"@, 0)) by {
        assert("Minivan"@.subrange(0, "Minivan"@.len() as int) =~= "Minivan"@);
    }
    match b {
        BodyStyle::Coupe => {
            lemma_absent("Cupê"@, "Minivan"@);
            lemma_absent("Coupe"@, "Minivan"@);
        },
        BodyStyle::Pickup => {
            lemma_absent("Picape"@, "Minivan"@);
            lemma_absent("Pickup"@, "Minivan"@);
        },
        BodyStyle::Sedan => {
            lemma_absent("Sedã"@, "Minivan"@);
            lemma_absent("Sedan"@, "Minivan"@);
        },
        BodyStyle::Hatchback => {
            lemma_absent("Hatch"@, "Minivan"@);
            lemma_absent("Hatchback"@, "Minivan"@);
        },
        BodyStyle::Suv => {
            lemma_absent("SUV"@, "Minivan"@);
        },
        BodyStyle::Convertible => {
            lemma_absent("Conversível"@, "Minivan"@);
            lemma_absent("Convertible"@, "Minivan"@);
        },
        BodyStyle::StationWagon => {
            lemma_absent("Station wagon"@, "Minivan"@);
            lemma_absent("Wagon"@, "Minivan"@);
        },
        BodyStyle::CompactCar => {
            lemma_absent("Carro compacto"@, "Minivan"@);
            lemma_absent("Compact"@, "Minivan"@);
        },
        BodyStyle::Other => {
            lemma_absent("Outro"@, "Minivan"@);
            lemma_absent("Other"@, "Minivan"@);
        },
        _ => {},
    }
}

#[verifier::spinoff_prover]
proof fn lemma_body_style_compact_car_locator(b: BodyStyle)
    ensures
        seq_contains("Compact"@, "Compact"@),
        b != BodyStyle::CompactCar ==> {
            &&& !seq_contains(b.label(), "Carro compacto"@) && !seq_contains(body_style_english(b), "Carro compacto"@)
            &&& !seq_contains(b.label(), "Compact"@) && !seq_contains(body_style_english(b), "Compact"@)
            &&& !seq_contains(b.label(), "Compact car"@) && !seq_contains(body_style_english(b), "Compact car"@)
        },
{
    reveal_strlit("Carro compacto");
    reveal_strlit("Compact");
    reveal_strlit("Compact car");
    reveal_strlit("Conversível");
    reveal_strlit("Convertible");
    reveal_strlit("Coupe");
    reveal_strlit("Cupê");
    reveal_strlit("Hatch");
    reveal_strlit("Hatchback");
    reveal_strlit("Minivan");
    reveal_strlit("Other");
    reveal_strlit("Outro");
    reveal_strlit("Picape");
    reveal_strlit("Pickup");
    reveal_strlit("SUV");
    reveal_strlit("Sedan");
    reveal_strlit("Sedã");
    reveal_strlit("Station wagon");
    reveal_strlit("Wagon");
    reveal_with_fuel(occurs_from, 16);
    reveal_with_fuel(matches_from, 16);
    assert(occurs_at("Compact"@, "Compact"@, 0)) by {
        assert("Compact"@.subrange(0, "Compact"@.len() as int) =~= "Compact"@);
    }
    match b {
        BodyStyle::Coupe => {
            lemma_absent("Cupê"@, "Carro compacto"@);
            lemma_absent("Cupê"@, "Compact"@);
            lemma_absent("Cupê"@, "Compact car"@);
            lemma_absent("Coupe"@, "Carro compacto"@);
            lemma_absent("Coupe"@, "Compact"@);
            lemma_absent("Coupe"@, "Compact car"@);
        },
        BodyStyle::Pickup => {
            lemma_absent("Picape"@, "Carro compacto"@);
            lemma_absent("Picape"@, "Compact"@);
            lemma_absent("Picape"@, "Compact car"@);
            lemma_absent("Pickup"@, "Carro compacto"@);
            lemma_absent("Pickup"@, "Compact"@);
            lemma_absent("Pickup"@, "Compact car"@);
        },
        BodyStyle::Sedan => {
            lemma_absent("Sedã"@, "Carro compacto"@);
            lemma_absent("Sedã"@, "Compact"@);
            lemma_absent("Sedã"@, "Compact car"@);
            lemma_absent("Sedan"@, "Carro compacto"@);
            lemma_absent("Sedan"@, "Compact"@);
            lemma_absent("Sedan"@, "Compact car"@);
        },
        BodyStyle::Hatchback => {
            lemma_absent("Hatch"@, "Carro compacto"@);
            lemma_absent("Hatch"@, "Compact"@);
            lemma_absent("Hatch"@, "Compact car"@);
            lemma_absent("Hatchback"@, "Carro compacto"@);
            lemma_absent("Hatchback"@, "Compact"@);
            lemma_absent("Hatchback"@, "Compact car"@);
        },
        BodyStyle::Suv => {
            lemma_absent("SUV"@, "Carro compacto"@);
            lemma_absent("SUV"@, "Compact"@);
            lemma_absent("SUV"@, "Compact car"@);
        },
        BodyStyle::Convertible => {
            lemma_absent("Conversível"@, "Carro compacto"@);
            lemma_absent("Conversível"@, "Compact"@);
            lemma_absent("Conversível"@, "Compact car"@);
            lemma_absent("Convertible"@, "Carro compacto"@);
            lemma_absent("Convertible"@, "Compact"@);
            lemma_absent("Convertible"@, "Compact car"@);
        },
        BodyStyle::StationWagon => {
            lemma_absent("Station wagon"@, "Carro compacto"@);
            lemma_absent("Station wagon"@, "Compact"@);
            lemma_absent("Station wagon"@, "Compact car"@);
            lemma_absent("Wagon"@, "Carro compacto"@);
            lemma_absent("Wagon"@, "Compact"@);
            lemma_absent("Wagon"@, "Compact car"@);
        },
        BodyStyle::Minivan => {
            lemma_absent("Minivan"@, "Carro compacto"@);
            lemma_absent("Minivan"@, "Compact"@);
            lemma_absent("Minivan"@, "Compact car"@);
        },
        BodyStyle::Other => {
            lemma_absent("Outro"@, "Carro compacto"@);
            lemma_absent("Outro"@, "Compact"@);
            lemma_absent("Outro"@, "Compact car"@);
            lemma_absent("Other"@, "Carro compacto"@);
            lemma_absent("Other"@, "Compact"@);
            lemma_absent("Other"@, "Compact car"@);
        },
        _ => {},
    }
}

#[verifier::spinoff_prover]
proof fn lemma_body_style_other_locator(b: BodyStyle)
    ensures
        seq_contains("Other"@, "Other"@),
        b != BodyStyle::Other ==> {
            &&& !seq_contains(b.label(), "Outro"@) && !seq_contains(body_style_english(b), "Outro"@)
            &&& !seq_contains(b.label(), "Other"@) && !seq_contains(body_style_english(b), "Other"@)
        },
{
    reveal_strlit("Carro compacto");
    reveal_strlit("Compact");
    reveal_strlit("Conversível");
    reveal_strlit("Convertible");
    reveal_strlit("Coupe");
    reveal_strlit("Cupê");
    reveal_strlit("Hatch");
    reveal_strlit("Hatchback");
    reveal_strlit("Minivan");
    reveal_strlit("Other");
    reveal_strlit("Outro");
    reveal_strlit("Picape");
    reveal_strlit("Pickup");
    reveal_strlit("SUV");
    reveal_strlit("Sedan");
    reveal_strlit("Sedã");
    reveal_strlit("Station wagon");
    reveal_strlit("Wagon");
    reveal_with_fuel(occurs_from, 16);
    reveal_with_fuel(matches_from, 7);
    assert(occurs_at("Other"@, "Other"@, 0)) by {
        assert("Other"@.subrange(0, "Other"@.len() as int) =~= "Other"@);
    }
    match b {
        BodyStyle::Coupe => {
            lemma_absent("Cupê"@, "Outro"@);
            lemma_absent("Cupê"@, "Other"@);
            lemma_absent("Coupe"@, "Outro"@);
            lemma_absent("Coupe"@, "Other"@);
        },
        BodyStyle::Pickup => {
            lemma_absent("Picape"@, "Outro"@);
            lemma_absent("Picape"@, "Other"@);
            lemma_absent("Pickup"@, "Outro"@);
            lemma_absent("Pickup"@, "Other"@);
        },
        BodyStyle::Sedan => {
            lemma_absent("Sedã"@, "Outro"@);
            lemma_absent("Sedã"@, "Other"@);
            lemma_absent("Sedan"@, "Outro"@);
            lemma_absent("Sedan"@, "Other"@);
        },
        BodyStyle::Hatchback => {
            lemma_absent("Hatch"@, "Outro"@);
            lemma_absent("Hatch"@, "Other"@);
            lemma_absent("Hatchback"@, "Outro"@);
            lemma_absent("Hatchback"@, "Other"@);
        },
        BodyStyle::Suv => {
            lemma_absent("SUV"@, "Outro"@);
            lemma_absent("SUV"@, "Other"@);
        },
        BodyStyle::Convertible => {
            lemma_absent("Conversível"@, "Outro"@);
            lemma_absent("Conversível"@, "Other"@);
            lemma_absent("Convertible"@, "Outro"@);
            lemma_absent("Convertible"@, "Other"@);
        },
        BodyStyle::StationWagon => {
            lemma_absent("Station wagon"@, "Outro"@);
            lemma_absent("Station wagon"@, "Other"@);
            lemma_absent("Wagon"@, "Outro"@);
            lemma_absent("Wagon"@, "Other"@);
        },
        BodyStyle::Minivan => {
            lemma_absent("Minivan"@, "Outro"@);
            lemma_absent("Minivan"@, "Other"@);
        },
        BodyStyle::CompactCar => {
            lemma_absent("Carro compacto"@, "Outro"@);
            lemma_absent("Carro compacto"@, "Other"@);
            lemma_absent("Compact"@, "Outro"@);
            lemma_absent("Compact"@, "Other"@);
        },
        _ => {},
    }
}

/// The locator of a body style option picks no option of another body style:
/// none of its terms occurs in another body style's Portuguese or English
/// name; and, for every body style but the pickup, whose locator only knows
/// its Portuguese label, it picks the body style's English option.
pub proof fn lemma_body_style_locators(a: BodyStyle, b: BodyStyle)
    ensures
        a != BodyStyle::Pickup ==> (exists|k: int| 0 <= k < option_terms(a.label()).len() && seq_contains(body_style_english(a), #[trigger] option_terms(a.label())[k])),
        a != b ==> forall|k: int| 0 <= k < option_terms(a.label()).len() ==>
            !seq_contains(b.label(), #[trigger] option_terms(a.label())[k])
                && !seq_contains(body_style_english(b), option_terms(a.label())[k]),
{
    lemma_body_style_terms(a);
    match a {
        BodyStyle::Coupe => { lemma_body_style_coupe_locator(b); assert(seq_contains(body_style_english(a), option_terms(a.label())[1])); },
        BodyStyle::Pickup => { lemma_body_style_pickup_locator(b); },
        BodyStyle::Sedan => { lemma_body_style_sedan_locator(b); assert(seq_contains(body_style_english(a), option_terms(a.label())[1])); },
        BodyStyle::Hatchback => { lemma_body_style_hatchback_locator(b); assert(seq_contains(body_style_english(a), option_terms(a.label())[0])); },
        BodyStyle::Suv => { lemma_body_style_suv_locator(b); assert(seq_contains(body_style_english(a), option_terms(a.label())[0])); },
        BodyStyle::Convertible => { lemma_body_style_convertible_locator(b); assert(seq_contains(body_style_english(a), option_terms(a.label())[1])); },
        BodyStyle::StationWagon => { lemma_body_style_station_wagon_locator(b); assert(seq_contains(body_style_english(a), option_terms(a.label())[1])); },
        BodyStyle::Minivan => { lemma_body_style_minivan_locator(b); assert(seq_contains(body_style_english(a), option_terms(a.label())[0])); },
        BodyStyle::CompactCar => { lemma_body_style_compact_car_locator(b); assert(seq_contains(body_style_english(a), option_terms(a.label())[1])); },
        BodyStyle::Other => { lemma_body_style_other_locator(b); assert(seq_contains(body_style_english(a), option_terms(a.label())[1])); },
    }
}

/// The name under which the marketplace shows each vehicle type in English.
pub open spec fn vehicle_type_english(c: VehicleCategory) -> Seq<char> {
    match c {
        VehicleCategory::CarOrPickup => "Car/Truck"@,
        VehicleCategory::Motorcycle => "Motorcycle"@,
        VehicleCategory::SportsVehicle => "Powersport"@,
        VehicleCategory::Trailer => "Trailer"@,
        VehicleCategory::UtilityTrailer => "Utility trailer"@,
        VehicleCategory::Boat => "Boat"@,
        VehicleCategory::CommercialOrIndustrial => "Commercial"@,
        VehicleCategory::Other => "Other"@,
    }
}

/// The terms of the locator of each vehicle type.
proof fn lemma_vehicle_type_terms(c: VehicleCategory)
    ensures
        option_terms(c.label()) == (match c {
            VehicleCategory::CarOrPickup => seq!["Carro/picape"@, "Car/Truck"@, "Car or pickup"@, "Carro"@, "Picape"@, "Carro/Caminhão"@],
            VehicleCategory::Motorcycle => seq!["Motocicleta"@, "Motorcycle"@],
            VehicleCategory::SportsVehicle => seq!["Veículos para esportes"@, "Powersport"@, "Powersports"@],
            VehicleCategory::Trailer => seq!["Trailer"@, "Trailer"@],
            VehicleCategory::UtilityTrailer => seq!["Reboque"@, "Utility trailer"@, "reboque"@],
            VehicleCategory::Boat => seq!["Barco"@, "Boat"@],
            VehicleCategory::CommercialOrIndustrial => seq!["Comercial/industrial"@, "Commercial"@, "Industrial"@],
            VehicleCategory::Other => seq!["Outro"@, "Other"@],
        }),
{
    reveal_strlit("Aluguel");
    reveal_strlit("Apartamento");
    reveal_strlit("Barco");
    reveal_strlit("Boat");
    reveal_strlit("Bom");
    reveal_strlit("Car or pickup");
    reveal_strlit("Car/Truck");
    reveal_strlit("Carro");
    reveal_strlit("Carro compacto");
    reveal_strlit("Carro/Caminhão");
    reveal_strlit("Carro/picape");
    reveal_strlit("Casa");
    reveal_strlit("Casa geminada");
    reveal_strlit("Comercial/industrial");
    reveal_strlit("Commercial");
    reveal_strlit("Conversível");
    reveal_strlit("Cupê");
    reveal_strlit("Diesel");
    reveal_strlit("Elétrico");
    reveal_strlit("Excelente");
    reveal_strlit("Flex");
    reveal_strlit("Gasolina");
    reveal_strlit("Hatch");
    reveal_strlit("Híbrido");
    reveal_strlit("Híbrido plug-in");
    reveal_strlit("Industrial");
    reveal_strlit("Minivan");
    reveal_strlit("Motocicleta");
    reveal_strlit("Motorcycle");
    reveal_strlit("Muito bom");
    reveal_strlit("Other");
    reveal_strlit("Outro");
    reveal_strlit("Picape");
    reveal_strlit("Powersport");
    reveal_strlit("Powersports");
    reveal_strlit("Razoável");
    reveal_strlit("Reboque");
    reveal_strlit("Ruim");
    reveal_strlit("SUV");
    reveal_strlit("Sedã");
    reveal_strlit("Station wagon");
    reveal_strlit("Trailer");
    reveal_strlit("Utility trailer");
    reveal_strlit("Veículos para esportes");
    reveal_strlit("reboque");
    reveal_strlit("À venda");
    match c {
        VehicleCategory::CarOrPickup => {
            assert("Carro/picape"@.len() != "Casa"@.len());
            assert("Carro/picape"@.len() != "Apartamento"@.len());
            assert("Carro/picape"@.len() != "Casa geminada"@.len());
            assert("Carro/picape"@.len() != "À venda"@.len());
            assert("Carro/picape"@.len() != "Aluguel"@.len());
            assert(option_synonyms("Carro/picape"@) =~= seq!["Car/Truck"@, "Car or pickup"@, "Carro"@, "Picape"@, "Carro/Caminhão"@]);
        },
        VehicleCategory::Motorcycle => {
            assert("Motocicleta"@.len() != "Casa"@.len());
            assert("Motocicleta"@[0] != "Apartamento"@[0]);
            assert("Motocicleta"@.len() != "Casa geminada"@.len());
            assert("Motocicleta"@.len() != "À venda"@.len());
            assert("Motocicleta"@.len() != "Aluguel"@.len());
            assert("Motocicleta"@.len() != "Carro/picape"@.len());
            assert(option_synonyms("Motocicleta"@) =~= seq!["Motorcycle"@]);
        },
        VehicleCategory::SportsVehicle => {
            assert("Veículos para esportes"@.len() != "Casa"@.len());
            assert("Veículos para esportes"@.len() != "Apartamento"@.len());
            assert("Veículos para esportes"@.len() != "Casa geminada"@.len());
            assert("Veículos para esportes"@.len() != "À venda"@.len());
            assert("Veículos para esportes"@.len() != "Aluguel"@.len());
            assert("Veículos para esportes"@.len() != "Carro/picape"@.len());
            assert("Veículos para esportes"@.len() != "Motocicleta"@.len());
            assert(option_synonyms("Veículos para esportes"@) =~= seq!["Powersport"@, "Powersports"@]);
        },
        VehicleCategory::Trailer => {
            assert("Trailer"@.len() != "Casa"@.len());
            assert("Trailer"@.len() != "Apartamento"@.len());
            assert("Trailer"@.len() != "Casa geminada"@.len());
            assert("Trailer"@[0] != "À venda"@[0]);
            assert("Trailer"@[0] != "Aluguel"@[0]);
            assert("Trailer"@.len() != "Carro/picape"@.len());
            assert("Trailer"@.len() != "Motocicleta"@.len());
            assert("Trailer"@.len() != "Veículos para esportes"@.len());
            assert(option_synonyms("Trailer"@) =~= seq!["Trailer"@]);
        },
        VehicleCategory::UtilityTrailer => {
            assert("Reboque"@.len() != "Casa"@.len());
            assert("Reboque"@.len() != "Apartamento"@.len());
            assert("Reboque"@.len() != "Casa geminada"@.len());
            assert("Reboque"@[0] != "À venda"@[0]);
            assert("Reboque"@[0] != "Aluguel"@[0]);
            assert("Reboque"@.len() != "Carro/picape"@.len());
            assert("Reboque"@.len() != "Motocicleta"@.len());
            assert("Reboque"@.len() != "Veículos para esportes"@.len());
            assert("Reboque"@[0] != "Trailer"@[0]);
            assert(option_synonyms("Reboque"@) =~= seq!["Utility trailer"@, "reboque"@]);
        },
        VehicleCategory::Boat => {
            assert("Barco"@.len() != "Casa"@.len());
            assert("Barco"@.len() != "Apartamento"@.len());
            assert("Barco"@.len() != "Casa geminada"@.len());
            assert("Barco"@.len() != "À venda"@.len());
            assert("Barco"@.len() != "Aluguel"@.len());
            assert("Barco"@.len() != "Carro/picape"@.len());
            assert("Barco"@.len() != "Motocicleta"@.len());
            assert("Barco"@.len() != "Veículos para esportes"@.len());
            assert("Barco"@.len() != "Trailer"@.len());
            assert("Barco"@.len() != "Reboque"@.len());
            assert(option_synonyms("Barco"@) =~= seq!["Boat"@]);
        },
        VehicleCategory::CommercialOrIndustrial => {
            assert("Comercial/industrial"@.len() != "Casa"@.len());
            assert("Comercial/industrial"@.len() != "Apartamento"@.len());
            assert("Comercial/industrial"@.len() != "Casa geminada"@.len());
            assert("Comercial/industrial"@.len() != "À venda"@.len());
            assert("Comercial/industrial"@.len() != "Aluguel"@.len());
            assert("Comercial/industrial"@.len() != "Carro/picape"@.len());
            assert("Comercial/industrial"@.len() != "Motocicleta"@.len());
            assert("Comercial/industrial"@.len() != "Veículos para esportes"@.len());
            assert("Comercial/industrial"@.len() != "Trailer"@.len());
            assert("Comercial/industrial"@.len() != "Reboque"@.len());
            assert("Comercial/industrial"@.len() != "Barco"@.len());
            assert(option_synonyms("Comercial/industrial"@) =~= seq!["Commercial"@, "Industrial"@]);
        },
        VehicleCategory::Other => {
            assert("Outro"@.len() != "Casa"@.len());
            assert("Outro"@.len() != "Apartamento"@.len());
            assert("Outro"@.len() != "Casa geminada"@.len());
            assert("Outro"@.len() != "À venda"@.len());
            assert("Outro"@.len() != "Aluguel"@.len());
            assert("Outro"@.len() != "Carro/picape"@.len());
            assert("Outro"@.len() != "Motocicleta"@.len());
            assert("Outro"@.len() != "Veículos para esportes"@.len());
            assert("Outro"@.len() != "Trailer"@.len());
            assert("Outro"@.len() != "Reboque"@.len());
            assert("Outro"@[0] != "Barco"@[0]);
            assert("Outro"@.len() != "Comercial/industrial"@.len());
            assert("Outro"@.len() != "Excelente"@.len());
            assert("Outro"@.len() != "Muito bom"@.len());
            assert("Outro"@.len() != "Bom"@.len());
            assert("Outro"@.len() != "Razoável"@.len());
            assert("Outro"@.len() != "Ruim"@.len());
            assert("Outro"@.len() != "Gasolina"@.len());
            assert("Outro"@.len() != "Diesel"@.len());
            assert("Outro"@.len() != "Híbrido"@.len());
            assert("Outro"@.len() != "Híbrido plug-in"@.len());
            assert("Outro"@.len() != "Elétrico"@.len());
            assert("Outro"@.len() != "Flex"@.len());
            assert("Outro"@.len() != "Cupê"@.len());
            assert("Outro"@.len() != "Sedã"@.len());
            assert("Outro"@[0] != "Hatch"@[0]);
            assert("Outro"@.len() != "SUV"@.len());
            assert("Outro"@.len() != "Conversível"@.len());
            assert("Outro"@.len() != "Station wagon"@.len());
            assert("Outro"@.len() != "Minivan"@.len());
            assert("Outro"@.len() != "Carro compacto"@.len());
            assert(option_synonyms("Outro"@) =~= seq!["Other"@]);
        },
    }
    assert(option_terms(c.label()) =~= (match c {
            VehicleCategory::CarOrPickup => seq!["Carro/picape"@, "Car/Truck"@, "Car or pickup"@, "Carro"@, "Picape"@, "Carro/Caminhão"@],
            VehicleCategory::Motorcycle => seq!["Motocicleta"@, "Motorcycle"@],
            VehicleCategory::SportsVehicle => seq!["Veículos para esportes"@, "Powersport"@, "Powersports"@],
            VehicleCategory::Trailer => seq!["Trailer"@, "Trailer"@],
            VehicleCategory::UtilityTrailer => seq!["Reboque"@, "Utility trailer"@, "reboque"@],
            VehicleCategory::Boat => seq!["Barco"@, "Boat"@],
            VehicleCategory::CommercialOrIndustrial => seq!["Comercial/industrial"@, "Commercial"@, "Industrial"@],
            VehicleCategory::Other => seq!["Outro"@, "Other"@],
    }));
}

#[verifier::spinoff_prover]
proof fn lemma_vehicle_type_car_or_pickup_locator(b: VehicleCategory)
    ensures
        seq_contains("Car/Truck"@, "Car/Truck"@),
        b != VehicleCategory::CarOrPickup ==> {
            &&& !seq_contains(b.label(), "Carro/picape"@) && !seq_contains(vehicle_type_english(b), "Carro/picape"@)
            &&& !seq_contains(b.label(), "Car/Truck"@) && !seq_contains(vehicle_type_english(b), "Car/Truck"@)
            &&& !seq_contains(b.label(), "Car or pickup"@) && !seq_contains(vehicle_type_english(b), "Car or pickup"@)
            &&& !seq_contains(b.label(), "Carro"@) && !seq_contains(vehicle_type_english(b), "Carro"@)
            &&& !seq_contains(b.label(), "Picape"@) && !seq_contains(vehicle_type_english(b), "Picape"@)
            &&& !seq_contains(b.label(), "Carro/Caminhão"@) && !seq_contains(vehicle_type_english(b), "Carro/Caminhão"@)
        },
{
    reveal_strlit("Barco");
    reveal_strlit("Boat");
    reveal_strlit("Car or pickup");
    reveal_strlit("Car/Truck");
    reveal_strlit("Carro");
    reveal_strlit("Carro/Caminhão");
    reveal_strlit("Carro/picape");
    reveal_strlit("Comercial/industrial");
    reveal_strlit("Commercial");
    reveal_strlit("Motocicleta");
    reveal_strlit("Motorcycle");
    reveal_strlit("Other");
    reveal_strlit("Outro");
    reveal_strlit("Picape");
    reveal_strlit("Powersport");
    reveal_strlit("Reboque");
    reveal_strlit("Trailer");
    reveal_strlit("Utility trailer");
    reveal_strlit("Veículos para esportes");
    reveal_with_fuel(occurs_from, 24);
    reveal_with_fuel(matches_from, 16);
    assert(occurs_at("Car/Truck"@, "Car/Truck"@, 0)) by {
        assert("Car/Truck"@.subrange(0, "Car/Truck"@.len() as int) =~= "Car/Truck"@);
    }
    match b {
        VehicleCategory::Motorcycle => {
            lemma_absent("Motocicleta"@, "Carro/picape"@);
            lemma_absent("Motocicleta"@, "Car/Truck"@);
            lemma_absent("Motocicleta"@, "Car or pickup"@);
            lemma_absent("Motocicleta"@, "Carro"@);
            lemma_absent("Motocicleta"@, "Picape"@);
            lemma_absent("Motocicleta"@, "Carro/Caminhão"@);
            lemma_absent("Motorcycle"@, "Carro/picape"@);
            lemma_absent("Motorcycle"@, "Car/Truck"@);
            lemma_absent("Motorcycle"@, "Car or pickup"@);
            lemma_absent("Motorcycle"@, "Carro"@);
            lemma_absent("Motorcycle"@, "Picape"@);
            lemma_absent("Motorcycle"@, "Carro/Caminhão"@);
        },
        VehicleCategory::SportsVehicle => {
            lemma_absent("Veículos para esportes"@, "Carro/picape"@);
            lemma_absent("Veículos para esportes"@, "Car/Truck"@);
            lemma_absent("Veículos para esportes"@, "Car or pickup"@);
            lemma_absent("Veículos para esportes"@, "Carro"@);
            lemma_absent("Veículos para esportes"@, "Picape"@);
            lemma_absent("Veículos para esportes"@, "Carro/Caminhão"@);
            lemma_absent("Powersport"@, "Carro/picape"@);
            lemma_absent("Powersport"@, "Car/Truck"@);
            lemma_absent("Powersport"@, "Car or pickup"@);
            lemma_absent("Powersport"@, "Carro"@);
            lemma_absent("Powersport"@, "Picape"@);
            lemma_absent("Powersport"@, "Carro/Caminhão"@);
        },
        VehicleCategory::Trailer => {
            lemma_absent("Trailer"@, "Carro/picape"@);
            lemma_absent("Trailer"@, "Car/Truck"@);
            lemma_absent("Trailer"@, "Car or pickup"@);
            lemma_absent("Trailer"@, "Carro"@);
            lemma_absent("Trailer"@, "Picape"@);
            lemma_absent("Trailer"@, "Carro/Caminhão"@);
        },
        VehicleCategory::UtilityTrailer => {
            lemma_absent("Reboque"@, "Carro/picape"@);
            lemma_absent("Reboque"@, "Car/Truck"@);
            lemma_absent("Reboque"@, "Car or pickup"@);
            lemma_absent("Reboque"@, "Carro"@);
            lemma_absent("Reboque"@, "Picape"@);
            lemma_absent("Reboque"@, "Carro/Caminhão"@);
            lemma_absent("Utility trailer"@, "Carro/picape"@);
            lemma_absent("Utility trailer"@, "Car/Truck"@);
            lemma_absent("Utility trailer"@, "Car or pickup"@);
            lemma_absent("Utility trailer"@, "Carro"@);
            lemma_absent("Utility trailer"@, "Picape"@);
            lemma_absent("Utility trailer"@, "Carro/Caminhão"@);
        },
        VehicleCategory::Boat => {
            lemma_absent("Barco"@, "Carro/picape"@);
            lemma_absent("Barco"@, "Car/Truck"@);
            lemma_absent("Barco"@, "Car or pickup"@);
            lemma_absent("Barco"@, "Carro"@);
            lemma_absent("Barco"@, "Picape"@);
            lemma_absent("Barco"@, "Carro/Caminhão"@);
            lemma_absent("Boat"@, "Carro/picape"@);
            lemma_absent("Boat"@, "Car/Truck"@);
            lemma_absent("Boat"@, "Car or pickup"@);
            lemma_absent("Boat"@, "Carro"@);
            lemma_absent("Boat"@, "Picape"@);
            lemma_absent("Boat"@, "Carro/Caminhão"@);
        },
        VehicleCategory::CommercialOrIndustrial => {
            lemma_absent("Comercial/industrial"@, "Carro/picape"@);
            lemma_absent("Comercial/industrial"@, "Car/Truck"@);
            lemma_absent("Comercial/industrial"@, "Car or pickup"@);
            lemma_absent("Comercial/industrial"@, "Carro"@);
            lemma_absent("Comercial/industrial"@, "Picape"@);
            lemma_absent("Comercial/industrial"@, "Carro/Caminhão"@);
            lemma_absent("Commercial"@, "Carro/picape"@);
            lemma_absent("Commercial"@, "Car/Truck"@);
            lemma_absent("Commercial"@, "Car or pickup"@);
            lemma_absent("Commercial"@, "Carro"@);
            lemma_absent("Commercial"@, "Picape"@);
            lemma_absent("Commercial"@, "Carro/Caminhão"@);
        },
        VehicleCategory::Other => {
            lemma_absent("Outro"@, "Carro/picape"@);
            lemma_absent("Outro"@, "Car/Truck"@);
            lemma_absent("Outro"@, "Car or pickup"@);
            lemma_absent("Outro"@, "Carro"@);
            lemma_absent("Outro"@, "Picape"@);
            lemma_absent("Outro"@, "Carro/Caminhão"@);
            lemma_absent("Other"@, "Carro/picape"@);
            lemma_absent("Other"@, "Car/Truck"@);
            lemma_absent("Other"@, "Car or pickup"@);
            lemma_absent("Other"@, "Carro"@);
            lemma_absent("Other"@, "Picape"@);
            lemma_absent("Other"@, "Carro/Caminhão"@);
        },
        _ => {},
    }
}

#[verifier::spinoff_prover]
proof fn lemma_vehicle_type_motorcycle_locator(b: VehicleCategory)
    ensures
        seq_contains("Motorcycle"@, "Motorcycle"@),
        b != VehicleCategory::Motorcycle ==> {
            &&& !seq_contains(b.label(), "Motocicleta"@) && !seq_contains(vehicle_type_english(b), "Motocicleta"@)
            &&& !seq_contains(b.label(), "Motorcycle"@) && !seq_contains(vehicle_type_english(b), "Motorcycle"@)
        },
{
    reveal_strlit("Barco");
    reveal_strlit("Boat");
    reveal_strlit("Car/Truck");
    reveal_strlit("Carro/picape");
    reveal_strlit("Comercial/industrial");
    reveal_strlit("Commercial");
    reveal_strlit("Motocicleta");
    reveal_strlit("Motorcycle");
    reveal_strlit("Other");
    reveal_strlit("Outro");
    reveal_strlit("Powersport");
    reveal_strlit("Reboque");
    reveal_strlit("Trailer");
    reveal_strlit("Utility trailer");
    reveal_strlit("Veículos para esportes");
    reveal_with_fuel(occurs_from, 24);
    reveal_with_fuel(matches_from, 13);
    assert(occurs_at("Motorcycle"@, "Motorcycle"@, 0)) by {
        assert("Motorcycle"@.subrange(0, "Motorcycle"@.len() as int) =~= "Motorcycle"@);
    }
    match b {
        VehicleCategory::CarOrPickup => {
            lemma_absent("Carro/picape"@, "Motocicleta"@);
            lemma_absent("Carro/picape"@, "Motorcycle"@);
            lemma_absent("Car/Truck"@, "Motocicleta"@);
            lemma_absent("Car/Truck"@, "Motorcycle"@);
        },
        VehicleCategory::SportsVehicle => {
            lemma_absent("Veículos para esportes"@, "Motocicleta"@);
            lemma_absent("Veículos para esportes"@, "Motorcycle"@);
            lemma_absent("Powersport"@, "Motocicleta"@);
            lemma_absent("Powersport"@, "Motorcycle"@);
        },
        VehicleCategory::Trailer => {
            lemma_absent("Trailer"@, "Motocicleta"@);
            lemma_absent("Trailer"@, "Motorcycle"@);
        },
        VehicleCategory::UtilityTrailer => {
            lemma_absent("Reboque"@, "Motocicleta"@);
            lemma_absent("Reboque"@, "Motorcycle"@);
            lemma_absent("Utility trailer"@, "Motocicleta"@);
            lemma_absent("Utility trailer"@, "Motorcycle"@);
        },
        VehicleCategory::Boat => {
            lemma_absent("Barco"@, "Motocicleta"@);
            lemma_absent("Barco"@, "Motorcycle"@);
            lemma_absent("Boat"@, "Motocicleta"@);
            lemma_absent("Boat"@, "Motorcycle"@);
        },
        VehicleCategory::CommercialOrIndustrial => {
            lemma_absent("Comercial/industrial"@, "Motocicleta"@);
            lemma_absent("Comercial/industrial"@, "Motorcycle"@);
            lemma_absent("Commercial"@, "Motocicleta"@);
            lemma_absent("Commercial"@, "Motorcycle"@);
        },
        VehicleCategory::Other => {
            lemma_absent("Outro"@, "Motocicleta"@);
            lemma_absent("Outro"@, "Motorcycle"@);
            lemma_absent("Other"@, "Motocicleta"@);
            lemma_absent("Other"@, "Motorcycle"@);
        },
        _ => {},
    }
}

#[verifier::spinoff_prover]
proof fn lemma_vehicle_type_sports_vehicle_locator(b: VehicleCategory)
    ensures
        seq_contains("Powersport"@, "Powersport"@),
        b != VehicleCategory::SportsVehicle ==> {
            &&& !seq_contains(b.label(), "Veículos para esportes"@) && !seq_contains(vehicle_type_english(b), "Veículos para esportes"@)
            &&& !seq_contains(b.label(), "Powersport"@) && !seq_contains(vehicle_type_english(b), "Powersport"@)
            &&& !seq_contains(b.label(), "Powersports"@) && !seq_contains(vehicle_type_english(b), "Powersports"@)
        },
{
    reveal_strlit("Barco");
    reveal_strlit("Boat");
    reveal_strlit("Car/Truck");
    reveal_strlit("Carro/picape");
    reveal_strlit("Comercial/industrial");
    reveal_strlit("Commercial");
    reveal_strlit("Motocicleta");
    reveal_strlit("Motorcycle");
    reveal_strlit("Other");
    reveal_strlit("Outro");
    reveal_strlit("Powersport");
    reveal_strlit("Powersports");
    reveal_strlit("Reboque");
    reveal_strlit("Trailer");
    reveal_strlit("Utility trailer");
    reveal_strlit("Veículos para esportes");
    reveal_with_fuel(occurs_from, 24);
    reveal_with_fuel(matches_from, 24);
    assert(occurs_at("Powersport"@, "Powersport"@, 0)) by {
        assert("Powersport"@.subrange(0, "Powersport"@.len() as int) =~= "Powersport"@);
    }
    match b {
        VehicleCategory::CarOrPickup => {
            lemma_absent("Carro/picape"@, "Veículos para esportes"@);
            lemma_absent("Carro/picape"@, "Powersport"@);
            lemma_absent("Carro/picape"@, "Powersports"@);
            lemma_absent("Car/Truck"@, "Veículos para esportes"@);
            lemma_absent("Car/Truck"@, "Powersport"@);
            lemma_absent("Car/Truck"@, "Powersports"@);
        },
        VehicleCategory::Motorcycle => {
            lemma_absent("Motocicleta"@, "Veículos para esportes"@);
            lemma_absent("Motocicleta"@, "Powersport"@);
            lemma_absent("Motocicleta"@, "Powersports"@);
            lemma_absent("Motorcycle"@, "Veículos para esportes"@);
            lemma_absent("Motorcycle"@, "Powersport"@);
            lemma_absent("Motorcycle"@, "Powersports"@);
        },
        VehicleCategory::Trailer => {
            lemma_absent("Trailer"@, "Veículos para esportes"@);
            lemma_absent("Trailer"@, "Powersport"@);
            lemma_absent("Trailer"@, "Powersports"@);
        },
        VehicleCategory::UtilityTrailer => {
            lemma_absent("Reboque"@, "Veículos para esportes"@);
            lemma_absent("Reboque"@, "Powersport"@);
            lemma_absent("Reboque"@, "Powersports"@);
            lemma_absent("Utility trailer"@, "Veículos para esportes"@);
            lemma_absent("Utility trailer"@, "Powersport"@);
            lemma_absent("Utility trailer"@, "Powersports"@);
        },
        VehicleCategory::Boat => {
            lemma_absent("Barco"@, "Veículos para esportes"@);
            lemma_absent("Barco"@, "Powersport"@);
            lemma_absent("Barco"@, "Powersports"@);
            lemma_absent("Boat"@, "Veículos para esportes"@);
            lemma_absent("Boat"@, "Powersport"@);
            lemma_absent("Boat"@, "Powersports"@);
        },
        VehicleCategory::CommercialOrIndustrial => {
            lemma_absent("Comercial/industrial"@, "Veículos para esportes"@);
            lemma_absent("Comercial/industrial"@, "Powersport"@);
            lemma_absent("Comercial/industrial"@, "Powersports"@);
            lemma_absent("Commercial"@, "Veículos para esportes"@);
            lemma_absent("Commercial"@, "Powersport"@);
            lemma_absent("Commercial"@, "Powersports"@);
        },
        VehicleCategory::Other => {
            lemma_absent("Outro"@, "Veículos para esportes"@);
            lemma_absent("Outro"@, "Powersport"@);
            lemma_absent("Outro"@, "Powersports"@);
            lemma_absent("Other"@, "Veículos para esportes"@);
            lemma_absent("Other"@, "Powersport"@);
            lemma_absent("Other"@, "Powersports"@);
        },
        _ => {},
    }
}

#[verifier::spinoff_prover]
proof fn lemma_vehicle_type_trailer_locator(b: VehicleCategory)
    ensures
        seq_contains("Trailer"@, "Trailer"@),
        b != VehicleCategory::Trailer ==> {
            &&& !seq_contains(b.label(), "Trailer"@) && !seq_contains(vehicle_type_english(b), "Trailer"@)
        },
{
    reveal_strlit("Barco");
    reveal_strlit("Boat");
    reveal_strlit("Car/Truck");
    reveal_strlit("Carro/picape");
    reveal_strlit("Comercial/industrial");
    reveal_strlit("Commercial");
    reveal_strlit("Motocicleta");
    reveal_strlit("Motorcycle");
    reveal_strlit("Other");
    reveal_strlit("Outro");
    reveal_strlit("Powersport");
    reveal_strlit("Reboque");
    reveal_strlit("Trailer");
    reveal_strlit("Utility trailer");
    reveal_strlit("Veículos para esportes");
    reveal_with_fuel(occurs_from, 24);
    reveal_with_fuel(matches_from, 9);
    assert(occurs_at("Trailer"@, "Trailer"@, 0)) by {
        assert("Trailer"@.subrange(0, "Trailer"@.len() as int) =~= "Trailer"@);
    }
    match b {
        VehicleCategory::CarOrPickup => {
            lemma_absent("Carro/picape"@, "Trailer"@);
            lemma_absent("Car/Truck"@, "Trailer"@);
        },
        VehicleCategory::Motorcycle => {
            lemma_absent("Motocicleta"@, "Trailer"@);
            lemma_absent("Motorcycle"@, "Trailer"@);
        },
        VehicleCategory::SportsVehicle => {
            lemma_absent("Veículos para esportes"@, "Trailer"@);
            lemma_absent("Powersport"@, "Trailer"@);
        },
        VehicleCategory::UtilityTrailer => {
            lemma_absent("Reboque"@, "Trailer"@);
            lemma_absent("Utility trailer"@, "Trailer"@);
        },
        VehicleCategory::Boat => {
            lemma_absent("Barco"@, "Trailer"@);
            lemma_absent("Boat"@, "Trailer"@);
        },
        VehicleCategory::CommercialOrIndustrial => {
            lemma_absent("Comercial/industrial"@, "Trailer"@);
            lemma_absent("Commercial"@, "Trailer"@);
        },
        VehicleCategory::Other => {
            lemma_absent("Outro"@, "Trailer"@);
            lemma_absent("Other"@, "Trailer"@);
        },
        _ => {},
    }
}

#[verifier::spinoff_prover]
proof fn lemma_vehicle_type_utility_trailer_locator(b: VehicleCategory)
    ensures
        seq_contains("Utility trailer"@, "Utility trailer"@),
        b != VehicleCategory::UtilityTrailer ==> {
            &&& !seq_contains(b.label(), "Reboque"@) && !seq_contains(vehicle_type_english(b), "Reboque"@)
            &&& !seq_contains(b.label(), "Utility trailer"@) && !seq_contains(vehicle_type_english(b), "Utility trailer"@)
            &&& !seq_contains(b.label(), "reboque"@) && !seq_contains(vehicle_type_english(b), "reboque"@)
        },
{
    reveal_strlit("Barco");
    reveal_strlit("Boat");
    reveal_strlit("Car/Truck");
    reveal_strlit("Carro/picape");
    reveal_strlit("Comercial/industrial");
    reveal_strlit("Commercial");
    reveal_strlit("Motocicleta");
    reveal_strlit("Motorcycle");
    reveal_strlit("Other");
    reveal_strlit("Outro");
    reveal_strlit("Powersport");
    reveal_strlit("Reboque");
    reveal_strlit("Trailer");
    reveal_strlit("Utility trailer");
    reveal_strlit("Veículos para esportes");
    reveal_strlit("reboque");
    reveal_with_fuel(occurs_from, 24);
    reveal_with_fuel(matches_from, 17);
    assert(occurs_at("Utility trailer"@, "Utility trailer"@, 0)) by {
        assert("Utility trailer"@.subrange(0, "Utility trailer"@.len() as int) =~= "Utility trailer"@);
    }
    match b {
        VehicleCategory::CarOrPickup => {
            lemma_absent("Carro/picape"@, "Reboque"@);
            lemma_absent("Carro/picape"@, "Utility trailer"@);
            lemma_absent("Carro/picape"@, "reboque"@);
            lemma_absent("Car/Truck"@, "Reboque"@);
            lemma_absent("Car/Truck"@, "Utility trailer"@);
            lemma_absent("Car/Truck"@, "reboque"@);
        },
        VehicleCategory::Motorcycle => {
            lemma_absent("Motocicleta"@, "Reboque"@);
            lemma_absent("Motocicleta"@, "Utility trailer"@);
            lemma_absent("Motocicleta"@, "reboque"@);
            lemma_absent("Motorcycle"@, "Reboque"@);
            lemma_absent("Motorcycle"@, "Utility trailer"@);
            lemma_absent("Motorcycle"@, "reboque"@);
        },
        VehicleCategory::SportsVehicle => {
            lemma_absent("Veículos para esportes"@, "Reboque"@);
            lemma_absent("Veículos para esportes"@, "Utility trailer"@);
            lemma_absent("Veículos para esportes"@, "reboque"@);
            lemma_absent("Powersport"@, "Reboque"@);
            lemma_absent("Powersport"@, "Utility trailer"@);
            lemma_absent("Powersport"@, "reboque"@);
        },
        VehicleCategory::Trailer => {
            lemma_absent("Trailer"@, "Reboque"@);
            lemma_absent("Trailer"@, "Utility trailer"@);
            lemma_absent("Trailer"@, "reboque"@);
        },
        VehicleCategory::Boat => {
            lemma_absent("Barco"@, "Reboque"@);
            lemma_absent("Barco"@, "Utility trailer"@);
            lemma_absent("Barco"@, "reboque"@);
            lemma_absent("Boat"@, "Reboque"@);
            lemma_absent("Boat"@, "Utility trailer"@);
            lemma_absent("Boat"@, "reboque"@);
        },
        VehicleCategory::CommercialOrIndustrial => {
            lemma_absent("Comercial/industrial"@, "Reboque"@);
            lemma_absent("Comercial/industrial"@, "Utility trailer"@);
            lemma_absent("Comercial/industrial"@, "reboque"@);
            lemma_absent("Commercial"@, "Reboque"@);
            lemma_absent("Commercial"@, "Utility trailer"@);
            lemma_absent("Commercial"@, "reboque"@);
        },
        VehicleCategory::Other => {
            lemma_absent("Outro"@, "Reboque"@);
            lemma_absent("Outro"@, "Utility trailer"@);
            lemma_absent("Outro"@, "reboque"@);
            lemma_absent("Other"@, "Reboque"@);
            lemma_absent("Other"@, "Utility trailer"@);
            lemma_absent("Other"@, "reboque"@);
        },
        _ => {},
    }
}

#[verifier::spinoff_prover]
proof fn lemma_vehicle_type_boat_locator(b: VehicleCategory)
    ensures
        seq_contains("Boat"@, "Boat"@),
        b != VehicleCategory::Boat ==> {
            &&& !seq_contains(b.label(), "Barco"@) && !seq_contains(vehicle_type_english(b), "Barco"@)
            &&& !seq_contains(b.label(), "Boat"@) && !seq_contains(vehicle_type_english(b), "Boat"@)
        },
{
    reveal_strlit("Barco");
    reveal_strlit("Boat");
    reveal_strlit("Car/Truck");
    reveal_strlit("Carro/picape");
    reveal_strlit("Comercial/industrial");
    reveal_strlit("Commercial");
    reveal_strlit("Motocicleta");
    reveal_strlit("Motorcycle");
    reveal_strlit("Other");
    reveal_strlit("Outro");
    reveal_strlit("Powersport");
    reveal_strlit("Reboque");
    reveal_strlit("Trailer");
    reveal_strlit("Utility trailer");
    reveal_strlit("Veículos para esportes");
    reveal_with_fuel(occurs_from, 24);
    reveal_with_fuel(matches_from, 7);
    assert(occurs_at("Boat"@, "Boat"@, 0)) by {
        assert("Boat"@.subrange(0, "Boat"@.len() as int) =~= "Boat"@);
    }
    match b {
        VehicleCategory::CarOrPickup => {
            lemma_absent("Carro/picape"@, "Barco"@);
            lemma_absent("Carro/picape"@, "Boat"@);
            lemma_absent("Car/Truck"@, "Barco"@);
            lemma_absent("Car/Truck"@, "Boat"@);
        },
        VehicleCategory::Motorcycle => {
            lemma_absent("Motocicleta"@, "Barco"@);
            lemma_absent("Motocicleta"@, "Boat"@);
            lemma_absent("Motorcycle"@, "Barco"@);
            lemma_absent("Motorcycle"@, "Boat"@);
        },
        VehicleCategory::SportsVehicle => {
            lemma_absent("Veículos para esportes"@, "Barco"@);
            lemma_absent("Veículos para esportes"@, "Boat"@);
            lemma_absent("Powersport"@, "Barco"@);
            lemma_absent("Powersport"@, "Boat"@);
        },
        VehicleCategory::Trailer => {
            lemma_absent("Trailer"@, "Barco"@);
            lemma_absent("Trailer"@, "Boat"@);
        },
        VehicleCategory::UtilityTrailer => {
            lemma_absent("Reboque"@, "Barco"@);
            lemma_absent("Reboque"@, "Boat"@);
            lemma_absent("Utility trailer"@, "Barco"@);
            lemma_absent("Utility trailer"@, "Boat"@);
        },
        VehicleCategory::CommercialOrIndustrial => {
            lemma_absent("Comercial/industrial"@, "Barco"@);
            lemma_absent("Comercial/industrial"@, "Boat"@);
            lemma_absent("Commercial"@, "Barco"@);
            lemma_absent("Commercial"@, "Boat"@);
        },
        VehicleCategory::Other => {
            lemma_absent("Outro"@, "Barco"@);
            lemma_absent("Outro"@, "Boat"@);
            lemma_absent("Other"@, "Barco"@);
            lemma_absent("Other"@, "Boat"@);
        },
        _ => {},
    }
}

#[verifier::spinoff_prover]
proof fn lemma_vehicle_type_commercial_or_industrial_locator(b: VehicleCategory)
    ensures
        seq_contains("Commercial"@, "Commercial"@),
        b != VehicleCategory::CommercialOrIndustrial ==> {
            &&& !seq_contains(b.label(), "Comercial/industrial"@) && !seq_contains(vehicle_type_english(b), "Comercial/industrial"@)
            &&& !seq_contains(b.label(), "Commercial"@) && !seq_contains(vehicle_type_english(b), "Commercial"@)
            &&& !seq_contains(b.label(), "Industrial"@) && !seq_contains(vehicle_type_english(b), "Industrial"@)
        },
{
    reveal_strlit("Barco");
    reveal_strlit("Boat");
    reveal_strlit("Car/Truck");
    reveal_strlit("Carro/picape");
    reveal_strlit("Comercial/industrial");
    reveal_strlit("Commercial");
    reveal_strlit("Industrial");
    reveal_strlit("Motocicleta");
    reveal_strlit("Motorcycle");
    reveal_strlit("Other");
    reveal_strlit("Outro");
    reveal_strlit("Powersport");
    reveal_strlit("Reboque");
    reveal_strlit("Trailer");
    reveal_strlit("Utility trailer");
    reveal_strlit("Veículos para esportes");
    reveal_with_fuel(occurs_from, 24);
    reveal_with_fuel(matches_from, 22);
    assert(occurs_at("Commercial"@, "Commercial"@, 0)) by {
        assert("Commercial"@.subrange(0, "Commercial"@.len() as int) =~= "Commercial"@);
    }
    match b {
        VehicleCategory::CarOrPickup => {
            lemma_absent("Carro/picape"@, "Comercial/industrial"@);
            lemma_absent("Carro/picape"@, "Commercial"@);
            lemma_absent("Carro/picape"@, "Industrial"@);
            lemma_absent("Car/Truck"@, "Comercial/industrial"@);
            lemma_absent("Car/Truck"@, "Commercial"@);
            lemma_absent("Car/Truck"@, "Industrial"@);
        },
        VehicleCategory::Motorcycle => {
            lemma_absent("Motocicleta"@, "Comercial/industrial"@);
            lemma_absent("Motocicleta"@, "Commercial"@);
            lemma_absent("Motocicleta"@, "Industrial"@);
            lemma_absent("Motorcycle"@, "Comercial/industrial"@);
            lemma_absent("Motorcycle"@, "Commercial"@);
            lemma_absent("Motorcycle"@, "Industrial"@);
        },
        VehicleCategory::SportsVehicle => {
            lemma_absent("Veículos para esportes"@, "Comercial/industrial"@);
            lemma_absent("Veículos para esportes"@, "Commercial"@);
            lemma_absent("Veículos para esportes"@, "Industrial"@);
            lemma_absent("Powersport"@, "Comercial/industrial"@);
            lemma_absent("Powersport"@, "Commercial"@);
            lemma_absent("Powersport"@, "Industrial"@);
        },
        VehicleCategory::Trailer => {
            lemma_absent("Trailer"@, "Comercial/industrial"@);
            lemma_absent("Trailer"@, "Commercial"@);
            lemma_absent("Trailer"@, "Industrial"@);
        },
        VehicleCategory::UtilityTrailer => {
            lemma_absent("Reboque"@, "Comercial/industrial"@);
            lemma_absent("Reboque"@, "Commercial"@);
            lemma_absent("Reboque"@, "Industrial"@);
            lemma_absent("Utility trailer"@, "Comercial/industrial"@);
            lemma_absent("Utility trailer"@, "Commercial"@);
            lemma_absent("Utility trailer"@, "Industrial"@);
        },
        VehicleCategory::Boat => {
            lemma_absent("Barco"@, "Comercial/industrial"@);
            lemma_absent("Barco"@, "Commercial"@);
            lemma_absent("Barco"@, "Industrial"@);
            lemma_absent("Boat"@, "Comercial/industrial"@);
            lemma_absent("Boat"@, "Commercial"@);
            lemma_absent("Boat"@, "Industrial"@);
        },
        VehicleCategory::Other => {
            lemma_absent("Outro"@, "Comercial/industrial"@);
            lemma_absent("Outro"@, "Commercial"@);
            lemma_absent("Outro"@, "Industrial"@);
            lemma_absent("Other"@, "Comercial/industrial"@);
            lemma_absent("Other"@, "Commercial"@);
            lemma_absent("Other"@, "Industrial"@);
        },
        _ => {},
    }
}

#[verifier::spinoff_prover]
proof fn lemma_vehicle_type_other_locator(b: VehicleCategory)
    ensures
        seq_contains("Other"@, "Other"@),
        b != VehicleCategory::Other ==> {
            &&& !seq_contains(b.label(), "Outro"@) && !seq_contains(vehicle_type_english(b), "Outro"@)
            &&& !seq_contains(b.label(), "Other"@) && !seq_contains(vehicle_type_english(b), "Other"@)
        },
{
    reveal_strlit("Barco");
    reveal_strlit("Boat");
    reveal_strlit("Car/Truck");
    reveal_strlit("Carro/picape");
    reveal_strlit("Comercial/industrial");
    reveal_strlit("Commercial");
    reveal_strlit("Motocicleta");
    reveal_strlit("Motorcycle");
    reveal_strlit("Other");
    reveal_strlit("Outro");
    reveal_strlit("Powersport");
    reveal_strlit("Reboque");
    reveal_strlit("Trailer");
    reveal_strlit("Utility trailer");
    reveal_strlit("Veículos para esportes");
    reveal_with_fuel(occurs_from, 24);
    reveal_with_fuel(matches_from, 7);
    assert(occurs_at("Other"@, "Other"@, 0)) by {
        assert("Other"@.subrange(0, "Other"@.len() as int) =~= "Other"@);
    }
    match b {
        VehicleCategory::CarOrPickup => {
            lemma_absent("Carro/picape"@, "Outro"@);
            lemma_absent("Carro/picape"@, "Other"@);
            lemma_absent("Car/Truck"@, "Outro"@);
            lemma_absent("Car/Truck"@, "Other"@);
        },
        VehicleCategory::Motorcycle => {
            lemma_absent("Motocicleta"@, "Outro"@);
            lemma_absent("Motocicleta"@, "Other"@);
            lemma_absent("Motorcycle"@, "Outro"@);
            lemma_absent("Motorcycle"@, "Other"@);
        },
        VehicleCategory::SportsVehicle => {
            lemma_absent("Veículos para esportes"@, "Outro"@);
            lemma_absent("Veículos para esportes"@, "Other"@);
            lemma_absent("Powersport"@, "Outro"@);
            lemma_absent("Powersport"@, "Other"@);
        },
        VehicleCategory::Trailer => {
            lemma_absent("Trailer"@, "Outro"@);
            lemma_absent("Trailer"@, "Other"@);
        },
        VehicleCategory::UtilityTrailer => {
            lemma_absent("Reboque"@, "Outro"@);
            lemma_absent("Reboque"@, "Other"@);
            lemma_absent("Utility trailer"@, "Outro"@);
            lemma_absent("Utility trailer"@, "Other"@);
        },
        VehicleCategory::Boat => {
            lemma_absent("Barco"@, "Outro"@);
            lemma_absent("Barco"@, "Other"@);
            lemma_absent("Boat"@, "Outro"@);
            lemma_absent("Boat"@, "Other"@);
        },
        VehicleCategory::CommercialOrIndustrial => {
            lemma_absent("Comercial/industrial"@, "Outro"@);
            lemma_absent("Comercial/industrial"@, "Other"@);
            lemma_absent("Commercial"@, "Outro"@);
            lemma_absent("Commercial"@, "Other"@);
        },
        _ => {},
    }
}

/// The locator of a vehicle type option picks that type's English option, and
/// no option of another type: none of its terms occurs in another type's
/// Portuguese or English name.
pub proof fn lemma_vehicle_type_locators(a: VehicleCategory, b: VehicleCategory)
    ensures
        exists|k: int| 0 <= k < option_terms(a.label()).len() && seq_contains(vehicle_type_english(a), #[trigger] option_terms(a.label())[k]),
        a != b ==> forall|k: int| 0 <= k < option_terms(a.label()).len() ==>
            !seq_contains(b.label(), #[trigger] option_terms(a.label())[k])
                && !seq_contains(vehicle_type_english(b), option_terms(a.label())[k]),
{
    lemma_vehicle_type_terms(a);
    match a {
        VehicleCategory::CarOrPickup => { lemma_vehicle_type_car_or_pickup_locator(b); assert(seq_contains(vehicle_type_english(a), option_terms(a.label())[1])); },
        VehicleCategory::Motorcycle => { lemma_vehicle_type_motorcycle_locator(b); assert(seq_contains(vehicle_type_english(a), option_terms(a.label())[1])); },
        VehicleCategory::SportsVehicle => { lemma_vehicle_type_sports_vehicle_locator(b); assert(seq_contains(vehicle_type_english(a), option_terms(a.label())[1])); },
        VehicleCategory::Trailer => { lemma_vehicle_type_trailer_locator(b); assert(seq_contains(vehicle_type_english(a), option_terms(a.label())[0])); },
        VehicleCategory::UtilityTrailer => { lemma_vehicle_type_utility_trailer_locator(b); assert(seq_contains(vehicle_type_english(a), option_terms(a.label())[1])); },
        VehicleCategory::Boat => { lemma_vehicle_type_boat_locator(b); assert(seq_contains(vehicle_type_english(a), option_terms(a.label())[1])); },
        VehicleCategory::CommercialOrIndustrial => { lemma_vehicle_type_commercial_or_industrial_locator(b); assert(seq_contains(vehicle_type_english(a), option_terms(a.label())[1])); },
        VehicleCategory::Other => { lemma_vehicle_type_other_locator(b); assert(seq_contains(vehicle_type_english(a), option_terms(a.label())[1])); },
    }
}

/// The name under which the marketplace shows each home type in English.
pub open spec fn home_type_english(c: HomeCategory) -> Seq<char> {
    match c {
        HomeCategory::Apartment => "Apartment"@,
        HomeCategory::House => "House"@,
    }
}

/// The terms of the locator of each home type.
proof fn lemma_home_type_terms(c: HomeCategory)
    ensures
        option_terms(c.label()) == (match c {
            HomeCategory::Apartment => seq!["Apartamento"@, "Apartment"@, "Condo"@],
            HomeCategory::House => seq!["Casa"@, "House"@],
        }),
{
    reveal_strlit("Aluguel");
    reveal_strlit("Apartamento");
    reveal_strlit("Apartment");
    reveal_strlit("Barco");
    reveal_strlit("Bom");
    reveal_strlit("Carro compacto");
    reveal_strlit("Carro/picape");
    reveal_strlit("Casa");
    reveal_strlit("Casa geminada");
    reveal_strlit("Comercial/industrial");
    reveal_strlit("Condo");
    reveal_strlit("Conversível");
    reveal_strlit("Cupê");
    reveal_strlit("Diesel");
    reveal_strlit("Elétrico");
    reveal_strlit("Excelente");
    reveal_strlit("Flex");
    reveal_strlit("Gasolina");
    reveal_strlit("Hatch");
    reveal_strlit("House");
    reveal_strlit("Híbrido");
    reveal_strlit("Híbrido plug-in");
    reveal_strlit("Minivan");
    reveal_strlit("Motocicleta");
    reveal_strlit("Muito bom");
    reveal_strlit("Outro");
    reveal_strlit("Razoável");
    reveal_strlit("Reboque");
    reveal_strlit("Ruim");
    reveal_strlit("SUV");
    reveal_strlit("Sedã");
    reveal_strlit("Station wagon");
    reveal_strlit("Trailer");
    reveal_strlit("Veículos para esportes");
    reveal_strlit("À venda");
    match c {
        HomeCategory::Apartment => {
            assert("Apartamento"@.len() != "Casa"@.len());
            assert(option_synonyms("Apartamento"@) =~= seq!["Apartment"@, "Condo"@]);
        },
        HomeCategory::House => {
            assert(option_synonyms("Casa"@) =~= seq!["House"@]);
        },
    }
    assert(option_terms(c.label()) =~= (match c {
            HomeCategory::Apartment => seq!["Apartamento"@, "Apartment"@, "Condo"@],
            HomeCategory::House => seq!["Casa"@, "House"@],
    }));
}

#[verifier::spinoff_prover]
proof fn lemma_home_type_apartment_locator(b: HomeCategory)
    ensures
        seq_contains("Apartment"@, "Apartment"@),
        b != HomeCategory::Apartment ==> {
            &&& !seq_contains(b.label(), "Apartamento"@) && !seq_contains(home_type_english(b), "Apartamento"@)
            &&& !seq_contains(b.label(), "Apartment"@) && !seq_contains(home_type_english(b), "Apartment"@)
            &&& !seq_contains(b.label(), "Condo"@) && !seq_contains(home_type_english(b), "Condo"@)
        },
{
    reveal_strlit("Apartamento");
    reveal_strlit("Apartment");
    reveal_strlit("Casa");
    reveal_strlit("Condo");
    reveal_strlit("House");
    reveal_with_fuel(occurs_from, 13);
    reveal_with_fuel(matches_from, 13);
    assert(occurs_at("Apartment"@, "Apartment"@, 0)) by {
        assert("Apartment"@.subrange(0, "Apartment"@.len() as int) =~= "Apartment"@);
    }
    match b {
        HomeCategory::House => {
            lemma_absent("Casa"@, "Apartamento"@);
            lemma_absent("Casa"@, "Apartment"@);
            lemma_absent("Casa"@, "Condo"@);
            lemma_absent("House"@, "Apartamento"@);
            lemma_absent("House"@, "Apartment"@);
            lemma_absent("House"@, "Condo"@);
        },
        _ => {},
    }
}

#[verifier::spinoff_prover]
proof fn lemma_home_type_house_locator(b: HomeCategory)
    ensures
        seq_contains("House"@, "House"@),
        b != HomeCategory::House ==> {
            &&& !seq_contains(b.label(), "Casa"@) && !seq_contains(home_type_english(b), "Casa"@)
            &&& !seq_contains(b.label(), "House"@) && !seq_contains(home_type_english(b), "House"@)
        },
{
    reveal_strlit("Apartamento");
    reveal_strlit("Apartment");
    reveal_strlit("Casa");
    reveal_strlit("House");
    reveal_with_fuel(occurs_from, 13);
    reveal_with_fuel(matches_from, 7);
    assert(occurs_at("House"@, "House"@, 0)) by {
        assert("House"@.subrange(0, "House"@.len() as int) =~= "House"@);
    }
    match b {
        HomeCategory::Apartment => {
            lemma_absent("Apartamento"@, "Casa"@);
            lemma_absent("Apartamento"@, "House"@);
            lemma_absent("Apartment"@, "Casa"@);
            lemma_absent("Apartment"@, "House"@);
        },
        _ => {},
    }
}

/// The locator of a home type option picks that type's English option, and
/// not the option of the other type.
pub proof fn lemma_home_type_locators(a: HomeCategory, b: HomeCategory)
    ensures
        exists|k: int| 0 <= k < option_terms(a.label()).len() && seq_contains(home_type_english(a), #[trigger] option_terms(a.label())[k]),
        a != b ==> forall|k: int| 0 <= k < option_terms(a.label()).len() ==>
            !seq_contains(b.label(), #[trigger] option_terms(a.label())[k])
                && !seq_contains(home_type_english(b), option_terms(a.label())[k]),
{
    lemma_home_type_terms(a);
    match a {
        HomeCategory::Apartment => { lemma_home_type_apartment_locator(b); assert(seq_contains(home_type_english(a), option_terms(a.label())[1])); },
        HomeCategory::House => { lemma_home_type_house_locator(b); assert(seq_contains(home_type_english(a), option_terms(a.label())[1])); },
    }
}

/// The name under which the marketplace shows each listing type in English.
pub open spec fn listing_type_english(c: Model) -> Seq<char> {
    match c {
        Model::Sale => "For sale"@,
        Model::Rent => "For rent"@,
    }
}

/// The terms of the locator of each listing type.
proof fn lemma_listing_type_terms(c: Model)
    ensures
        option_terms(c.label()) == (match c {
            Model::Sale => seq!["À venda"@, "sale"@, "Venda"@, "For sale"@],
            Model::Rent => seq!["Aluguel"@, "rent"@, "Locação"@, "Aluguel"@, "For rent"@],
        }),
{
    reveal_strlit("Aluguel");
    reveal_strlit("Apartamento");
    reveal_strlit("Barco");
    reveal_strlit("Bom");
    reveal_strlit("Carro compacto");
    reveal_strlit("Carro/picape");
    reveal_strlit("Casa");
    reveal_strlit("Casa geminada");
    reveal_strlit("Comercial/industrial");
    reveal_strlit("Conversível");
    reveal_strlit("Cupê");
    reveal_strlit("Diesel");
    reveal_strlit("Elétrico");
    reveal_strlit("Excelente");
    reveal_strlit("Flex");
    reveal_strlit("For rent");
    reveal_strlit("For sale");
    reveal_strlit("Gasolina");
    reveal_strlit("Hatch");
    reveal_strlit("Híbrido");
    reveal_strlit("Híbrido plug-in");
    reveal_strlit("Locação");
    reveal_strlit("Minivan");
    reveal_strlit("Motocicleta");
    reveal_strlit("Muito bom");
    reveal_strlit("Outro");
    reveal_strlit("Razoável");
    reveal_strlit("Reboque");
    reveal_strlit("Ruim");
    reveal_strlit("SUV");
    reveal_strlit("Sedã");
    reveal_strlit("Station wagon");
    reveal_strlit("Trailer");
    reveal_strlit("Venda");
    reveal_strlit("Veículos para esportes");
    reveal_strlit("rent");
    reveal_strlit("sale");
    reveal_strlit("À venda");
    match c {
        Model::Sale => {
            assert("À venda"@.len() != "Casa"@.len());
            assert("À venda"@.len() != "Apartamento"@.len());
            assert("À venda"@.len() != "Casa geminada"@.len());
            assert(option_synonyms("À venda"@) =~= seq!["sale"@, "Venda"@, "For sale"@]);
        },
        Model::Rent => {
            assert("Aluguel"@.len() != "Casa"@.len());
            assert("Aluguel"@.len() != "Apartamento"@.len());
            assert("Aluguel"@.len() != "Casa geminada"@.len());
            assert("Aluguel"@[0] != "À venda"@[0]);
            assert(option_synonyms("Aluguel"@) =~= seq!["rent"@, "Locação"@, "Aluguel"@, "For rent"@]);
        },
    }
    assert(option_terms(c.label()) =~= (match c {
            Model::Sale => seq!["À venda"@, "sale"@, "Venda"@, "For sale"@],
            Model::Rent => seq!["Aluguel"@, "rent"@, "Locação"@, "Aluguel"@, "For rent"@],
    }));
}

#[verifier::spinoff_prover]
proof fn lemma_listing_type_sale_locator(b: Model)
    ensures
        seq_contains("For sale"@, "sale"@),
        b != Model::Sale ==> {
            &&& !seq_contains(b.label(), "À venda"@) && !seq_contains(listing_type_english(b), "À venda"@)
            &&& !seq_contains(b.label(), "sale"@) && !seq_contains(listing_type_english(b), "sale"@)
            &&& !seq_contains(b.label(), "Venda"@) && !seq_contains(listing_type_english(b), "Venda"@)
            &&& !seq_contains(b.label(), "For sale"@) && !seq_contains(listing_type_english(b), "For sale"@)
        },
{
    reveal_strlit("Aluguel");
    reveal_strlit("For rent");
    reveal_strlit("For sale");
    reveal_strlit("Venda");
    reveal_strlit("sale");
    reveal_strlit("À venda");
    reveal_with_fuel(occurs_from, 10);
    reveal_with_fuel(matches_from, 10);
    assert(occurs_from("For sale"@, "sale"@, 0)) by {
        reveal_strlit("For sale");
        reveal_strlit("sale");
        reveal_with_fuel(occurs_from, 10);
        reveal_with_fuel(matches_from, 6);
    }
    lemma_occurs_from_start("For sale"@, "sale"@);
    match b {
        Model::Rent => {
            lemma_absent("Aluguel"@, "À venda"@);
            lemma_absent("Aluguel"@, "sale"@);
            lemma_absent("Aluguel"@, "Venda"@);
            lemma_absent("Aluguel"@, "For sale"@);
            lemma_absent("For rent"@, "À venda"@);
            lemma_absent("For rent"@, "sale"@);
            lemma_absent("For rent"@, "Venda"@);
            lemma_absent("For rent"@, "For sale"@);
        },
        _ => {},
    }
}

#[verifier::spinoff_prover]
proof fn lemma_listing_type_rent_locator(b: Model)
    ensures
        seq_contains("For rent"@, "rent"@),
        b != Model::Rent ==> {
            &&& !seq_contains(b.label(), "Aluguel"@) && !seq_contains(listing_type_english(b), "Aluguel"@)
            &&& !seq_contains(b.label(), "rent"@) && !seq_contains(listing_type_english(b), "rent"@)
            &&& !seq_contains(b.label(), "Locação"@) && !seq_contains(listing_type_english(b), "Locação"@)
            &&& !seq_contains(b.label(), "For rent"@) && !seq_contains(listing_type_english(b), "For rent"@)
        },
{
    reveal_strlit("Aluguel");
    reveal_strlit("For rent");
    reveal_strlit("For sale");
    reveal_strlit("Locação");
    reveal_strlit("rent");
    reveal_strlit("À venda");
    reveal_with_fuel(occurs_from, 10);
    reveal_with_fuel(matches_from, 10);
    assert(occurs_from("For rent"@, "rent"@, 0)) by {
        reveal_strlit("For rent");
        reveal_strlit("rent");
        reveal_with_fuel(occurs_from, 10);
        reveal_with_fuel(matches_from, 6);
    }
    lemma_occurs_from_start("For rent"@, "rent"@);
    match b {
        Model::Sale => {
            lemma_absent("À venda"@, "Aluguel"@);
            lemma_absent("À venda"@, "rent"@);
            lemma_absent("À venda"@, "Locação"@);
            lemma_absent("À venda"@, "For rent"@);
            lemma_absent("For sale"@, "Aluguel"@);
            lemma_absent("For sale"@, "rent"@);
            lemma_absent("For sale"@, "Locação"@);
            lemma_absent("For sale"@, "For rent"@);
        },
        _ => {},
    }
}

/// The locator of a listing type option picks that type's English option, and
/// not the option of the other type.
pub proof fn lemma_listing_type_locators(a: Model, b: Model)
    ensures
        exists|k: int| 0 <= k < option_terms(a.label()).len() && seq_contains(listing_type_english(a), #[trigger] option_terms(a.label())[k]),
        a != b ==> forall|k: int| 0 <= k < option_terms(a.label()).len() ==>
            !seq_contains(b.label(), #[trigger] option_terms(a.label())[k])
                && !seq_contains(listing_type_english(b), option_terms(a.label())[k]),
{
    lemma_listing_type_terms(a);
    match a {
        Model::Sale => { lemma_listing_type_sale_locator(b); assert(seq_contains(listing_type_english(a), option_terms(a.label())[1])); },
        Model::Rent => { lemma_listing_type_rent_locator(b); assert(seq_contains(listing_type_english(a), option_terms(a.label())[1])); },
    }
}

} // verus!
