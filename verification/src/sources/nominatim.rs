//! Places as the geocoding provider describes them: a name in several
//! languages, and an address that names the place on several levels, from
//! the neighbourhood up to the continent.

use vstd::prelude::*;
use crate::sources::common::{pairs, ApiError};
use crate::utils::text::{
    chars_of, collect_somes, contains, first_occurrence, join, joined, optional_texts, present,
    push_char, replace_first, replaced_first, texts,
};
use vstd::string::*;

verus! {

/// A level of the address hierarchy.
#[derive(Debug, Clone, PartialEq, Eq, Hash)]
pub enum AddressLevel {
    Neighbourhood,
    District,
    Hamlet,
    Municipality,
    County,
    State,
    Country,
    Continent,
    /// A kind of place that the hierarchy does not know, by the provider's
    /// name for it.
    Other(String),
}

/// The address of a place as the provider reports it. Several of the
/// provider's fields can stand for one level, depending on local custom;
/// [`Address::get_address_level`] collapses them.
#[derive(Debug, Clone)]
pub struct Address {
    pub hamlet: Option<String>,
    pub croft: Option<String>,
    pub isolated_dwelling: Option<String>,
    pub municipality: Option<String>,
    pub village: Option<String>,
    pub town: Option<String>,
    pub city: Option<String>,
    pub district: Option<String>,
    pub city_district: Option<String>,
    pub borough: Option<String>,
    pub suburb: Option<String>,
    pub subdivision: Option<String>,
    pub postcode: Option<String>,
    pub neighbourhood: Option<String>,
    pub allotments: Option<String>,
    pub quarter: Option<String>,
    pub county: Option<String>,
    pub state_district: Option<String>,
    pub state: Option<String>,
    pub province: Option<String>,
    pub country: Option<String>,
    pub country_code: Option<String>,
    pub continent: Option<String>,
    pub iso3166_l4: Option<String>,
    pub iso3166_l6: Option<String>,
}

/// The text of a field, if the field is present.
pub open spec fn field_text(field: Option<String>) -> Option<Seq<char>> {
    match field {
        Some(s) => Some(s@),
        None => None,
    }
}

/// What a level lookup returns for the values `found`: the values
/// themselves, or nothing where there is none.
pub open spec fn is_level_result(r: Option<Vec<String>>, found: Seq<Seq<char>>) -> bool {
    match r {
        Some(list) => texts(list@) == found && found.len() > 0,
        None => found.len() == 0,
    }
}

impl Default for Address {
    /// The address that says nothing.
    fn default() -> (r: Address)
        ensures
            r == Address::blank(),
    {
        Address {
            hamlet: None,
            croft: None,
            isolated_dwelling: None,
            municipality: None,
            village: None,
            town: None,
            city: None,
            district: None,
            city_district: None,
            borough: None,
            suburb: None,
            subdivision: None,
            postcode: None,
            neighbourhood: None,
            allotments: None,
            quarter: None,
            county: None,
            state_district: None,
            state: None,
            province: None,
            country: None,
            country_code: None,
            continent: None,
            iso3166_l4: None,
            iso3166_l6: None,
        }
    }
}

impl Address {
    /// The address that says nothing: every field is missing.
    pub open spec fn blank() -> Address {
        Address {
            hamlet: None,
            croft: None,
            isolated_dwelling: None,
            municipality: None,
            village: None,
            town: None,
            city: None,
            district: None,
            city_district: None,
            borough: None,
            suburb: None,
            subdivision: None,
            postcode: None,
            neighbourhood: None,
            allotments: None,
            quarter: None,
            county: None,
            state_district: None,
            state: None,
            province: None,
            country: None,
            country_code: None,
            continent: None,
            iso3166_l4: None,
            iso3166_l6: None,
        }
    }

    /// The provider's fields that stand for `level`, in the order in which
    /// they are preferred.
    pub open spec fn aliases(&self, level: AddressLevel) -> Seq<Option<Seq<char>>> {
        match level {
            AddressLevel::Neighbourhood => seq![
                field_text(self.neighbourhood),
                field_text(self.allotments),
                field_text(self.quarter),
            ],
            AddressLevel::District => seq![
                field_text(self.city_district),
                field_text(self.suburb),
                field_text(self.subdivision),
                field_text(self.borough),
            ],
            AddressLevel::Hamlet => seq![
                field_text(self.hamlet),
                field_text(self.croft),
                field_text(self.isolated_dwelling),
            ],
            AddressLevel::Municipality => seq![
                field_text(self.village),
                field_text(self.town),
                field_text(self.municipality),
                field_text(self.city),
            ],
            AddressLevel::County => seq![field_text(self.county), field_text(self.state_district)],
            AddressLevel::State => seq![field_text(self.state), field_text(self.province)],
            AddressLevel::Country => seq![field_text(self.country)],
            AddressLevel::Continent => seq![field_text(self.continent)],
            AddressLevel::Other(_) => Seq::empty(),
        }
    }

    /// The names that the address gives for `level`, in the order in which
    /// they are preferred.
    pub open spec fn level_texts(&self, level: AddressLevel) -> Seq<Seq<char>> {
        present(self.aliases(level))
    }

    /// The names of the neighbourhood.
    pub fn neighbourhood(&self) -> (r: Option<Vec<String>>)
        ensures
            is_level_result(r, self.level_texts(AddressLevel::Neighbourhood)),
    {
        let fields = [self.neighbourhood.as_ref(), self.allotments.as_ref(), self.quarter.as_ref()];
        assert(optional_texts(fields@) == self.aliases(AddressLevel::Neighbourhood));
        collect_somes(fields.as_slice())
    }

    /// The names of the district.
    pub fn district(&self) -> (r: Option<Vec<String>>)
        ensures
            is_level_result(r, self.level_texts(AddressLevel::District)),
    {
        let fields = [
            self.city_district.as_ref(),
            self.suburb.as_ref(),
            self.subdivision.as_ref(),
            self.borough.as_ref(),
        ];
        assert(optional_texts(fields@) == self.aliases(AddressLevel::District));
        collect_somes(fields.as_slice())
    }

    /// The names of the hamlet.
    pub fn hamlet(&self) -> (r: Option<Vec<String>>)
        ensures
            is_level_result(r, self.level_texts(AddressLevel::Hamlet)),
    {
        let fields = [self.hamlet.as_ref(), self.croft.as_ref(), self.isolated_dwelling.as_ref()];
        assert(optional_texts(fields@) == self.aliases(AddressLevel::Hamlet));
        collect_somes(fields.as_slice())
    }

    /// The names of the municipality.
    pub fn municipality(&self) -> (r: Option<Vec<String>>)
        ensures
            is_level_result(r, self.level_texts(AddressLevel::Municipality)),
    {
        let fields = [
            self.village.as_ref(),
            self.town.as_ref(),
            self.municipality.as_ref(),
            self.city.as_ref(),
        ];
        assert(optional_texts(fields@) == self.aliases(AddressLevel::Municipality));
        collect_somes(fields.as_slice())
    }

    /// The names of the county.
    pub fn county(&self) -> (r: Option<Vec<String>>)
        ensures
            is_level_result(r, self.level_texts(AddressLevel::County)),
    {
        let fields = [self.county.as_ref(), self.state_district.as_ref()];
        assert(optional_texts(fields@) == self.aliases(AddressLevel::County));
        collect_somes(fields.as_slice())
    }

    /// The names of the state.
    pub fn state(&self) -> (r: Option<Vec<String>>)
        ensures
            is_level_result(r, self.level_texts(AddressLevel::State)),
    {
        let fields = [self.state.as_ref(), self.province.as_ref()];
        assert(optional_texts(fields@) == self.aliases(AddressLevel::State));
        collect_somes(fields.as_slice())
    }

    /// The names that the address gives for `level`: every field that
    /// stands for the level and is present, in the order in which they are
    /// preferred. `None` where the address says nothing of the level, and
    /// for every level that the hierarchy does not know.
    pub fn get_address_level(&self, level: &AddressLevel) -> (r: Option<Vec<String>>)
        ensures
            is_level_result(r, self.level_texts(*level)),
    {
        match level {
            AddressLevel::Neighbourhood => self.neighbourhood(),
            AddressLevel::District => self.district(),
            AddressLevel::Hamlet => self.hamlet(),
            AddressLevel::Municipality => self.municipality(),
            AddressLevel::County => self.county(),
            AddressLevel::State => self.state(),
            AddressLevel::Country => {
                let fields = [self.country.as_ref()];
                assert(optional_texts(fields@) == self.aliases(AddressLevel::Country));
                collect_somes(fields.as_slice())
            },
            AddressLevel::Continent => {
                let fields = [self.continent.as_ref()];
                assert(optional_texts(fields@) == self.aliases(AddressLevel::Continent));
                collect_somes(fields.as_slice())
            },
            AddressLevel::Other(_) => {
                assert(self.aliases(*level).len() == 0);
                None
            },
        }
    }
}

impl AddressLevel {
    /// The levels that place a settlement: from the neighbourhood up to the
    /// state.
    pub open spec fn hierarchy_levels() -> Seq<AddressLevel> {
        seq![
            AddressLevel::Neighbourhood,
            AddressLevel::District,
            AddressLevel::Hamlet,
            AddressLevel::Municipality,
            AddressLevel::County,
            AddressLevel::State,
        ]
    }

    /// The levels that tell a place of this level from others of its name:
    /// the level itself and the wider levels that are worth showing with it.
    pub open spec fn related(self) -> Seq<AddressLevel> {
        match self {
            AddressLevel::Neighbourhood => seq![
                AddressLevel::Neighbourhood,
                AddressLevel::District,
                AddressLevel::Municipality,
                AddressLevel::State,
            ],
            AddressLevel::District => seq![
                AddressLevel::District,
                AddressLevel::Municipality,
                AddressLevel::State,
            ],
            AddressLevel::Hamlet => seq![
                AddressLevel::Hamlet,
                AddressLevel::Municipality,
                AddressLevel::County,
                AddressLevel::State,
            ],
            AddressLevel::Municipality => seq![
                AddressLevel::Municipality,
                AddressLevel::County,
                AddressLevel::State,
            ],
            AddressLevel::County => seq![AddressLevel::County, AddressLevel::State],
            AddressLevel::State => seq![AddressLevel::State, AddressLevel::Country],
            AddressLevel::Country => seq![AddressLevel::Country, AddressLevel::Continent],
            AddressLevel::Continent => seq![AddressLevel::Continent],
            AddressLevel::Other(_) => Seq::empty(),
        }
    }

    /// The levels that place a settlement, from the narrowest to the widest.
    pub fn hierarchy() -> (r: &'static [AddressLevel])
        ensures
            r@ == Self::hierarchy_levels(),
    {
        &[
            AddressLevel::Neighbourhood,
            AddressLevel::District,
            AddressLevel::Hamlet,
            AddressLevel::Municipality,
            AddressLevel::County,
            AddressLevel::State,
        ]
    }

    /// The levels to show for a place of this level, from the narrowest to
    /// the widest. A level that the hierarchy does not know has none.
    pub fn related_address_levels(&self) -> (r: &'static [AddressLevel])
        ensures
            r@ == self.related(),
    {
        match self {
            AddressLevel::Neighbourhood => &[
                AddressLevel::Neighbourhood,
                AddressLevel::District,
                AddressLevel::Municipality,
                AddressLevel::State,
            ],
            AddressLevel::District => &[
                AddressLevel::District,
                AddressLevel::Municipality,
                AddressLevel::State,
            ],
            AddressLevel::Hamlet => &[
                AddressLevel::Hamlet,
                AddressLevel::Municipality,
                AddressLevel::County,
                AddressLevel::State,
            ],
            AddressLevel::Municipality => &[
                AddressLevel::Municipality,
                AddressLevel::County,
                AddressLevel::State,
            ],
            AddressLevel::County => &[AddressLevel::County, AddressLevel::State],
            AddressLevel::State => &[AddressLevel::State, AddressLevel::Country],
            AddressLevel::Country => &[AddressLevel::Country, AddressLevel::Continent],
            AddressLevel::Continent => &[AddressLevel::Continent],
            AddressLevel::Other(_) => &[],
        }
    }
}

/// The name of a place: as it is called where it lies, and in other
/// languages.
#[derive(Debug, Clone)]
pub struct PlaceName {
    /// The name in the local language.
    pub local: String,
    /// Names by key, a key being `name:` and a language code. Where a key
    /// stands twice, the later entry counts.
    pub global: Vec<(String, String)>,
}

/// The value under `key` in `pairs`: that of the last entry with this key.
pub open spec fn lookup(pairs: Seq<(String, String)>, key: Seq<char>) -> Option<String>
    decreases pairs.len(),
{
    if pairs.len() == 0 {
        None
    } else if pairs.last().0@ == key {
        Some(pairs.last().1)
    } else {
        lookup(pairs.drop_last(), key)
    }
}

/// The first of two optional values that is present.
pub open spec fn or_else(first: Option<String>, second: Option<String>) -> Option<String> {
    if first is Some {
        first
    } else {
        second
    }
}

/// What a name lookup returns where the names hold `found`.
pub open spec fn is_lookup_result(r: Option<&String>, found: Option<String>) -> bool {
    match r {
        Some(name) => found == Some(*name),
        None => found is None,
    }
}

impl PlaceName {
    /// The key under which the name in the language `lang` is filed.
    pub open spec fn key(lang: Seq<char>) -> Seq<char> {
        "name:"@ + lang
    }

    /// The name in the language with the code `lang`.
    pub open spec fn name_in(&self, lang: Seq<char>) -> Option<String> {
        lookup(self.global@, Self::key(lang))
    }

    /// A name with its forms in other languages; `global` holds them by key, a key
    /// being `name:` and a language code.
    pub fn new(local: String, global: Vec<(String, String)>) -> (r: PlaceName)
        ensures
            r.local == local,
            r.global == global,
    {
        PlaceName { local, global }
    }

    /// The name in the language with the two-letter code `lang`, if the
    /// provider gave one.
    pub fn get_lang(&self, lang: &str) -> (r: Option<&String>)
        ensures
            is_lookup_result(r, self.name_in(lang@)),
    {
        let mut key = String::from_str("name:");
        key.append(lang);
        let mut i: usize = self.global.len();
        assert(self.global@.take(i as int) == self.global@);
        while i > 0
            invariant
                i <= self.global.len(),
                key@ == Self::key(lang@),
                lookup(self.global@, key@) == lookup(self.global@.take(i as int), key@),
            decreases i,
        {
            proof {
                assert(self.global@.take(i as int).drop_last() == self.global@.take(i - 1));
            }
            i = i - 1;
            if self.global[i].0 == key {
                return Some(&self.global[i].1);
            }
        }
        None
    }

    /// The name in the language `lang`, or else in `default_lang`.
    pub fn get_lang_or(&self, lang: &str, default_lang: &str) -> (r: Option<&String>)
        ensures
            is_lookup_result(
                r,
                or_else(self.name_in(lang@), self.name_in(default_lang@)),
            ),
    {
        match self.get_lang(lang) {
            Some(name) => Some(name),
            None => self.get_lang(default_lang),
        }
    }

    /// The name in the language `lang`, or else in English.
    pub fn get_lang_or_default(&self, lang: &str) -> (r: Option<&String>)
        ensures
            is_lookup_result(r, or_else(self.name_in(lang@), self.name_in("en"@))),
    {
        self.get_lang_or(lang, "en")
    }
}

/// What else the provider knows of a place.
#[derive(Debug, Clone)]
pub struct Extratags {
    pub wikidata: Option<String>,
    pub wikipedia: Option<String>,
    pub website: Option<String>,
    pub capital: Option<String>,
    pub population: Option<String>,
    pub population_date: Option<String>,
}

/// The shape in which the geocoding provider reports a rejected request.
#[derive(Debug, Clone)]
pub struct NominatimError {
    pub code: u16,
    pub message: String,
}

/// The details that the geocoding provider adds to a rejected request.
#[derive(Debug, Clone)]
pub struct NominatimErrorDetails {
    pub reason: String,
}

impl From<NominatimError> for ApiError {
    /// A rejection by the geocoding provider, with its message as the
    /// reason.
    fn from(nomi_error: NominatimError) -> (r: ApiError) {
        ApiError::BadRequest { reason: nomi_error.message }
    }
}

impl vstd::std_specs::convert::FromSpecImpl<NominatimError> for ApiError {
    open spec fn obeys_from_spec() -> bool {
        true
    }

    open spec fn from_spec(nomi_error: NominatimError) -> ApiError {
        ApiError::BadRequest { reason: nomi_error.message }
    }
}

/// The distance between a small Latin letter and the regional indicator
/// symbol of that letter. Two such symbols in a row show as a flag.
pub const REGIONAL_INDICATOR_OFFSET: u32 = 0x1F1E6 - 0x61;

/// The character with the number `i`, if there is one: every number up to
/// `0x10FFFF` but the surrogates stands for a character.
pub open spec fn scalar_value(i: u32) -> Option<char> {
    if i <= 0xD7FF || 0xE000 <= i <= 0x10FFFF {
        Some(i as char)
    } else {
        None
    }
}

/// `char::from_u32` of the standard library: the character with the given
/// number, and `None` for a surrogate and for a number beyond the last
/// character.
pub assume_specification[ char::from_u32 ](i: u32) -> (r: Option<char>)
    ensures
        r == scalar_value(i),
;

/// What `str::to_lowercase` makes of a text: its lower case as Unicode
/// defines it. The result can differ in length from the text.
pub uninterp spec fn lowercase(s: Seq<char>) -> Seq<char>;

/// The lower case of `s`: `str::to_lowercase` of the standard library. The
/// contract only names the result.
#[verifier::external_body]
fn to_lowercase(s: &str) -> (r: String)
    ensures
        r@ == lowercase(s@),
{
    s.to_lowercase()
}

/// The regional indicator symbol that belongs to `c`: the character that
/// lies `REGIONAL_INDICATOR_OFFSET` further on, and `c` itself where no
/// character lies there.
pub open spec fn indicator(c: char) -> char {
    match scalar_value((c as u32 + REGIONAL_INDICATOR_OFFSET) as u32) {
        Some(symbol) => symbol,
        None => c,
    }
}

/// The regional indicator symbol that belongs to `c`.
fn regional_indicator(c: char) -> (symbol: char)
    ensures
        symbol == indicator(c),
{
    match char::from_u32(c as u32 + REGIONAL_INDICATOR_OFFSET) {
        Some(symbol) => symbol,
        None => c,
    }
}

/// The flag for a country code; two question marks where the code is
/// missing.
pub open spec fn flag(country_code: Option<String>) -> Seq<char> {
    match country_code {
        Some(code) => lowercase(code@).map_values(|c: char| indicator(c)),
        None => "??"@,
    }
}

/// The flag for the country with the two-letter code `code`: the regional
/// indicator symbols of its letters.
pub fn flag_of(code: &str) -> (r: String)
    ensures
        r@ == lowercase(code@).map_values(|c: char| indicator(c)),
{
    let lower = to_lowercase(code);
    let letters = chars_of(lower.as_str());
    let mut r = String::new();
    let mut i: usize = 0;
    while i < letters.len()
        invariant
            i <= letters.len(),
            r@ == letters@.take(i as int).map_values(|c: char| indicator(c)),
        decreases letters.len() - i,
    {
        let c = letters[i];
        push_char(&mut r, regional_indicator(c));
        proof {
            assert(letters@.take(i + 1).map_values(|c: char| indicator(c)) == letters@.take(
                i as int,
            ).map_values(|c: char| indicator(c)).push(indicator(c)));
        }
        i = i + 1;
    }
    proof {
        assert(letters@.take(letters.len() as int) == letters@);
    }
    r
}

/// All names that `address` gives for `levels`, level by level.
pub open spec fn all_names(address: Address, levels: Seq<AddressLevel>) -> Seq<Seq<char>>
    decreases levels.len(),
{
    if levels.len() == 0 {
        Seq::empty()
    } else {
        all_names(address, levels.drop_last()) + address.level_texts(levels.last())
    }
}

/// The preferred name that `address` gives for each of `levels`, leaving
/// out the levels of which it says nothing.
pub open spec fn first_names(address: Address, levels: Seq<AddressLevel>) -> Seq<Seq<char>>
    decreases levels.len(),
{
    if levels.len() == 0 {
        Seq::empty()
    } else {
        let names = address.level_texts(levels.last());
        if names.len() > 0 {
            first_names(address, levels.drop_last()).push(names[0])
        } else {
            first_names(address, levels.drop_last())
        }
    }
}

/// A place that the geocoding provider found for a search.
#[derive(Debug, Clone)]
pub struct Place {
    pub id: i64,
    /// The latitude, as decimal text.
    pub lat: String,
    /// The longitude, as decimal text.
    pub lon: String,
    pub category: String,
    pub name: PlaceName,
    /// The level of the hierarchy on which the place itself stands.
    pub address_type: AddressLevel,
    pub address: Address,
    /// The provider's own one-line description.
    pub full_name: String,
    pub extratags: Option<Extratags>,
    pub place_rank: i16,
    /// The name under which the place was searched for. It is attached
    /// after the provider has answered, see [`Place::expect_name`].
    pub expected_name: Option<String>,
}

impl Place {
    /// The name that is held against a search term: the name of the place
    /// in the local language, `name.local`. The provider's one-line
    /// description, `full_name`, names the wider areas as well and would
    /// never equal what was searched for.
    pub open spec fn display_name(&self) -> Seq<char> {
        self.name.local@
    }

    /// What [`Place::address_details`] returns.
    pub open spec fn details(&self) -> Seq<char> {
        joined(all_names(self.address, AddressLevel::hierarchy_levels()), ", "@)
    }

    /// What [`Place::address_summary`] returns.
    pub open spec fn summary(&self) -> Seq<char> {
        joined(first_names(self.address, self.address_type.related()), ", "@)
    }

    /// The local name followed by the expected one in parentheses.
    pub open spec fn name_with(&self, expected: Seq<char>) -> Seq<char> {
        self.name.local@ + " ("@ + expected + ")"@
    }

    /// What [`Place::info`] returns.
    pub open spec fn info_text(&self) -> Seq<char> {
        self.name.local@ + " [lat: "@ + self.lat@ + ", lon: "@ + self.lon@ + "]"@
    }

    /// The text of an optional name.
    pub open spec fn name_text(name: Option<String>) -> Option<Seq<char>> {
        match name {
            Some(name) => Some(name@),
            None => None,
        }
    }

    /// The line that stands for the place where it is expected under the
    /// name `expected`: its flag, then its address from the neighbourhood
    /// up to the state; in the address, the expected name follows the first
    /// mention of the local name in parentheses, unless the local name holds
    /// it already.
    pub open spec fn label_for(&self, expected: Option<Seq<char>>) -> Seq<char> {
        let described = match expected {
            Some(expected) => if first_occurrence(self.name.local@, expected) is None {
                replaced_first(self.details(), self.name.local@, self.name_with(expected))
            } else {
                self.details()
            },
            None => self.details(),
        };
        flag(self.address.country_code) + " | "@ + described
    }

    /// What [`Place::label`] returns.
    pub open spec fn label_text(&self) -> Seq<char> {
        self.label_for(Self::name_text(self.expected_name))
    }

    /// Attaches the name under which the place was searched for. The name is
    /// attached once: a place that has one keeps it.
    pub fn expect_name(&mut self, search_term: &str)
        ensures
            old(self).expected_name is Some ==> *final(self) == *old(self),
            old(self).expected_name is None ==> final(self).expected_name is Some,
            old(self).expected_name is None ==> final(self).expected_name->0@ == search_term@,
            old(self).expected_name is None ==> *final(self) == (Place {
                expected_name: final(self).expected_name,
                ..*old(self)
            }),
    {
        if self.expected_name.is_none() {
            self.expected_name = Some(String::from_str(search_term));
        }
    }

    /// The place in a few words for a log or an error report: its local
    /// name and its coordinates.
    pub fn info(&self) -> (r: String)
        ensures
            r@ == self.info_text(),
    {
        let mut r = self.name.local.clone();
        r.append(" [lat: ");
        r.append(self.lat.as_str());
        r.append(", lon: ");
        r.append(self.lon.as_str());
        r.append("]");
        r
    }

    /// Every name that the address gives from the neighbourhood up to the
    /// state, separated by commas.
    pub fn address_details(&self) -> (r: String)
        ensures
            r@ == self.details(),
    {
        let levels = AddressLevel::hierarchy();
        let mut parts: Vec<String> = Vec::new();
        let mut i: usize = 0;
        while i < levels.len()
            invariant
                i <= levels.len(),
                texts(parts@) == all_names(self.address, levels@.take(i as int)),
            decreases levels.len() - i,
        {
            proof {
                assert(levels@.take(i + 1).drop_last() == levels@.take(i as int));
            }
            let ghost before = parts@;
            if let Some(mut names) = self.address.get_address_level(&levels[i]) {
                let ghost added = names@;
                parts.append(&mut names);
                assert(texts(parts@) == texts(before) + texts(added));
            } else {
                assert(texts(before) + Seq::<Seq<char>>::empty() == texts(before));
            }
            i = i + 1;
        }
        proof {
            assert(levels@.take(levels.len() as int) == levels@);
        }
        join(&parts, ", ")
    }

    /// The preferred name of the place on its own level and on the wider
    /// levels that go with it, separated by commas.
    pub fn address_summary(&self) -> (r: String)
        ensures
            r@ == self.summary(),
    {
        let levels = self.address_type.related_address_levels();
        let mut parts: Vec<String> = Vec::new();
        let mut i: usize = 0;
        while i < levels.len()
            invariant
                i <= levels.len(),
                texts(parts@) == first_names(self.address, levels@.take(i as int)),
            decreases levels.len() - i,
        {
            proof {
                assert(levels@.take(i + 1).drop_last() == levels@.take(i as int));
            }
            let ghost before = parts@;
            if let Some(names) = self.address.get_address_level(&levels[i]) {
                parts.push(names[0].clone());
                assert(texts(parts@) == texts(before).push(names@[0]@));
            }
            i = i + 1;
        }
        proof {
            assert(levels@.take(levels.len() as int) == levels@);
        }
        join(&parts, ", ")
    }

    /// The flag of the country in which the place lies, as a pair of
    /// regional indicator symbols; two question marks where the country
    /// code is missing.
    pub fn country_indicator(&self) -> (r: String)
        ensures
            r@ == flag(self.address.country_code),
    {
        match &self.address.country_code {
            Some(code) => flag_of(code.as_str()),
            None => String::from_str("??"),
        }
    }

    /// The line that stands for the place in a list: its flag, then its
    /// address from the neighbourhood up to the state. Where the place is
    /// expected under a name that its local name does not contain, that name
    /// follows the local one in parentheses.
    pub fn label_with(&self, expected: Option<&str>) -> (r: String)
        ensures
            r@ == self.label_for(
                match expected {
                    Some(name) => Some(name@),
                    None => None,
                },
            ),
    {
        let details = self.address_details();
        let described = match expected {
            Some(expected) => {
                if !contains(self.name.local.as_str(), expected) {
                    let mut replacement = self.name.local.clone();
                    replacement.append(" (");
                    replacement.append(expected);
                    replacement.append(")");
                    replace_first(details.as_str(), self.name.local.as_str(), replacement.as_str())
                } else {
                    details
                }
            },
            None => details,
        };
        let mut r = self.country_indicator();
        r.append(" | ");
        r.append(described.as_str());
        r
    }

    /// The line that stands for the place in a list, with the name under
    /// which the place was searched for as the expected one.
    pub fn label(&self) -> (r: String)
        ensures
            r@ == self.label_text(),
    {
        match &self.expected_name {
            Some(expected) => self.label_with(Some(expected.as_str())),
            None => self.label_with(None),
        }
    }
}

/// The parameters that ask the geocoding provider for the places called
/// `name`.
pub open spec fn search_params(name: Seq<char>) -> Seq<(Seq<char>, Seq<char>)> {
    seq![("city"@, name)]
}

/// Prepares the search for the places called `name`.
pub fn place_request(name: &str) -> (params: Vec<(String, String)>)
    ensures
        pairs(params@) == search_params(name@),
{
    let mut params: Vec<(String, String)> = Vec::new();
    params.push((String::from_str("city"), String::from_str(name)));
    assert(pairs(params@) == search_params(name@));
    params
}

/// Attaches the name that was searched for to each of the places that the
/// search found.
pub fn expect_names(places: &mut Vec<Place>, search_term: &str)
    ensures
        final(places)@.len() == old(places)@.len(),
        forall|i: int|
            0 <= i < old(places)@.len() ==> is_expecting(
                #[trigger] final(places)@[i],
                old(places)@[i],
                search_term@,
            ),
{
    let mut i: usize = 0;
    while i < places.len()
        invariant
            i <= places.len(),
            places@.len() == old(places)@.len(),
            forall|j: int|
                0 <= j < i ==> is_expecting(#[trigger] places@[j], old(places)@[j], search_term@),
            forall|j: int| i <= j < places@.len() ==> places@[j] == old(places)@[j],
        decreases places.len() - i,
    {
        places[i].expect_name(search_term);
        i = i + 1;
    }
}

/// Whether `after` is `before` with the name that was searched for
/// attached, or `before` itself where it had one already.
pub open spec fn is_expecting(after: Place, before: Place, search_term: Seq<char>) -> bool {
    if before.expected_name is Some {
        after == before
    } else {
        &&& after.expected_name is Some
        &&& after.expected_name->0@ == search_term
        &&& after == (Place { expected_name: after.expected_name, ..before })
    }
}

} // verus!
