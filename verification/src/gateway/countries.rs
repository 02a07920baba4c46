//! The table of countries the gateway serves, and the JSON it is served as.

use vstd::prelude::*;
use vstd::string::*;

use crate::gateway::api::{make_response, response_is, Response, OK};
use crate::util::json::{json_string, json_string_literal};
use crate::util::text::{decimal_string, decimal_text};

verus! {

/// A country: its name, capital and population.
#[derive(Clone, Debug)]
pub struct Country {
    name: String,
    capital: String,
    population: u128,
}

impl Country {
    /// The country's name.
    pub closed spec fn name_text(self) -> Seq<char> {
        self.name@
    }

    /// The country's capital.
    pub closed spec fn capital_text(self) -> Seq<char> {
        self.capital@
    }

    /// The country's population.
    pub closed spec fn people(self) -> u128 {
        self.population
    }

    /// A country with the given name, capital and population.
    pub fn new(name: &str, capital: &str, population: u128) -> (r: Country)
        ensures
            r.name_text() == name@,
            r.capital_text() == capital@,
            r.people() == population,
    {
        Country { name: name.to_owned(), capital: capital.to_owned(), population }
    }

    /// The country's name.
    pub fn name(&self) -> (r: &String)
        ensures
            r@ == self.name_text(),
    {
        &self.name
    }

    /// The country's capital.
    pub fn capital(&self) -> (r: &String)
        ensures
            r@ == self.capital_text(),
    {
        &self.capital
    }

    /// The country's population.
    pub fn population(&self) -> (r: u128)
        ensures
            r == self.people(),
    {
        self.population
    }
}

/// The rows of the table: key, name, capital, population.
pub open spec fn country_rows() -> Seq<(Seq<char>, Seq<char>, Seq<char>, u128)> {
    seq![
        ("Canada"@, "Canada"@, "Ottawa"@, 37000000u128),
        ("Afghanistan"@, "Afghanistan"@, "Kabul"@, 38930000u128),
        ("Jamaica"@, "Jamaica"@, "Kingston"@, 2961000u128),
        ("Cypress"@, "Cyprus"@, "Nicosia"@, 1207000u128),
        ("United States"@, "United States"@, "Washington, D.C"@, 329500000u128),
        ("United Kingdom"@, "United Kingdom"@, "London"@, 672200000u128),
        ("Ukraine"@, "Ukraine"@, "Kiev"@, 44130000u128),
    ]
}

/// The table entry `e` holds the row `row`.
pub open spec fn entry_holds(e: (String, Country), row: (Seq<char>, Seq<char>, Seq<char>, u128)) -> bool {
    e.0@ == row.0 && e.1.name_text() == row.1 && e.1.capital_text() == row.2 && e.1.people() == row.3
}

fn push_country(
    table: &mut Vec<(String, Country)>,
    key: &str,
    name: &str,
    capital: &str,
    population: u128,
)
    ensures
        final(table)@.len() == old(table)@.len() + 1,
        forall|i: int| 0 <= i < old(table)@.len() ==> final(table)@[i] == old(table)@[i],
        entry_holds(final(table)@.last(), (key@, name@, capital@, population)),
{
    table.push((key.to_owned(), Country::new(name, capital, population)));
}

/// The countries the gateway serves, keyed by the name they are looked up by.
pub fn country_table() -> (r: Vec<(String, Country)>)
    ensures
        r@.len() == country_rows().len(),
        forall|i: int| 0 <= i < r@.len() ==> entry_holds(#[trigger] r@[i], country_rows()[i]),
{
    let mut table: Vec<(String, Country)> = Vec::new();
    push_country(&mut table, "Canada", "Canada", "Ottawa", 37000000);
    push_country(&mut table, "Afghanistan", "Afghanistan", "Kabul", 38930000);
    push_country(&mut table, "Jamaica", "Jamaica", "Kingston", 2961000);
    push_country(&mut table, "Cypress", "Cyprus", "Nicosia", 1207000);
    push_country(&mut table, "United States", "United States", "Washington, D.C", 329500000);
    push_country(&mut table, "United Kingdom", "United Kingdom", "London", 672200000);
    push_country(&mut table, "Ukraine", "Ukraine", "Kiev", 44130000);
    table
}

/// Law: every country is listed under its own name, but for the one keyed
/// `Cypress`, whose name is `Cyprus`.
pub proof fn lemma_countries_keyed_by_name(i: int)
    requires
        0 <= i < country_rows().len(),
    ensures
        country_rows()[i].0 != "Cypress"@ ==> country_rows()[i].0 == country_rows()[i].1,
        country_rows()[i].0 == "Cypress"@ ==> country_rows()[i].1 == "Cyprus"@,
{
    reveal_strlit("Cypress");
    reveal_strlit("Cyprus");
    reveal_strlit("Canada");
    reveal_strlit("Afghanistan");
    reveal_strlit("Jamaica");
    reveal_strlit("United States");
    reveal_strlit("United Kingdom");
    reveal_strlit("Ukraine");
    let key = country_rows()[i].0;
    if i != 3 {
        assert(key.len() != "Cypress"@.len() || key[0] != "Cypress"@[0]);
    }
}

/// A row as a member of the JSON object the table is served as:
/// `"<key>":{"name":...,"capital":...,"population":...}`.
pub open spec fn country_member_json(row: (Seq<char>, Seq<char>, Seq<char>, u128)) -> Seq<char> {
    json_string_literal(row.0) + ":{\"name\":"@ + json_string_literal(row.1) + ",\"capital\":"@
        + json_string_literal(row.2) + ",\"population\":"@ + decimal_text(row.3 as nat) + "}"@
}

/// The members for `rows`, separated by commas.
pub open spec fn country_members_json(rows: Seq<(Seq<char>, Seq<char>, Seq<char>, u128)>) -> Seq<
    char,
>
    decreases rows.len(),
{
    if rows.len() == 0 {
        Seq::<char>::empty()
    } else if rows.len() == 1 {
        country_member_json(rows[0])
    } else {
        country_members_json(rows.drop_last()) + ","@ + country_member_json(rows.last())
    }
}

/// The table as a JSON object keyed by the table's keys, in the table's order.
pub open spec fn countries_json() -> Seq<char> {
    "{"@ + country_members_json(country_rows()) + "}"@
}

fn member_json(key: &String, country: &Country) -> (r: String)
    ensures
        r@ == country_member_json(
            (key@, country.name_text(), country.capital_text(), country.people()),
        ),
{
    let mut r = json_string(key.as_str());
    r.append(":{\"name\":");
    let name = json_string(country.name.as_str());
    r.append(name.as_str());
    r.append(",\"capital\":");
    let capital = json_string(country.capital.as_str());
    r.append(capital.as_str());
    r.append(",\"population\":");
    let population = decimal_string(country.population);
    r.append(population.as_str());
    r.append("}");
    r
}

/// The table as JSON, each country under its key, in the table's order (a
/// map of countries is written in whatever order it is walked; this is one).
pub fn countries_body() -> (r: String)
    ensures
        r@ == countries_json(),
{
    let table = country_table();
    let n = table.len();
    let ghost rows = country_rows();
    let mut r = String::from_str("{");
    for i in 0..n
        invariant
            n == table@.len(),
            n == rows.len(),
            rows == country_rows(),
            forall|j: int| 0 <= j < table@.len() ==> entry_holds(#[trigger] table@[j], rows[j]),
            r@ == "{"@ + country_members_json(rows.take(i as int)),
    {
        proof {
            assert(entry_holds(table@[i as int], rows[i as int]));
            assert(rows.take(i + 1).drop_last() =~= rows.take(i as int));
            assert(rows.take(i + 1).last() == rows[i as int]);
        }
        if i > 0 {
            r.append(",");
        }
        let member = member_json(&table[i].0, &table[i].1);
        r.append(member.as_str());
        proof {
            if i == 0 {
                assert(rows.take(0) =~= Seq::<(Seq<char>, Seq<char>, Seq<char>, u128)>::empty());
                assert(rows.take(1).len() == 1);
                assert(rows.take(1)[0] == rows[0]);
            }
        }
    }
    r.append("}");
    proof {
        assert(rows.take(n as int) =~= rows);
    }
    r
}

/// Answers a request for the countries: `200 OK` with the table as JSON.
pub fn countries() -> (r: Response)
    ensures
        response_is(r, OK, countries_json()),
{
    make_response(OK, Some(countries_body()))
}

} // verus!
