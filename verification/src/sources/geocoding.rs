//! Places as the forecast provider's own search describes them: a name, a
//! country and up to four administrative areas, from the widest to the
//! narrowest.

use vstd::prelude::*;
use vstd::string::*;
use crate::sources::nominatim::{flag, flag_of};
use crate::utils::text::present;

verus! {

/// A place that the search found. Its coordinates and its elevation stay
/// with the caller.
#[derive(Debug, Clone)]
pub struct Place {
    pub name: String,
    pub timezone: String,
    /// The two-letter code of the country.
    pub country: String,
    pub admin1: Option<String>,
    pub admin2: Option<String>,
    pub admin3: Option<String>,
    pub admin4: Option<String>,
}

/// What the search returns.
#[derive(Debug, Clone)]
pub struct GeoResult {
    pub places: Vec<Place>,
}

/// The text of a field, if the field is present.
pub open spec fn area(field: Option<String>) -> Option<Seq<char>> {
    match field {
        Some(s) => Some(s@),
        None => None,
    }
}

/// What a district lookup returns where the district is `found`.
pub open spec fn is_district(r: Option<&String>, found: Option<Seq<char>>) -> bool {
    match r {
        Some(name) => found == Some(name@),
        None => found is None,
    }
}

impl Place {
    /// The administrative areas that are present, from the widest to the
    /// narrowest.
    pub open spec fn areas(&self) -> Seq<Seq<char>> {
        present(seq![area(self.admin1), area(self.admin2), area(self.admin3), area(self.admin4)])
    }

    /// The area that tells the place from others of its name: of several
    /// areas the last but one, else the only one.
    pub open spec fn district(&self) -> Option<Seq<char>> {
        let areas = self.areas();
        if areas.len() == 0 {
            None
        } else if areas.len() == 1 {
            Some(areas[0])
        } else {
            Some(areas[areas.len() - 2])
        }
    }

    /// What [`Place::label`] returns.
    pub open spec fn label_text(&self) -> Seq<char> {
        match self.district() {
            Some(district) => flag(Some(self.country)) + " | "@ + self.name@ + ", "@ + district,
            None => flag(Some(self.country)) + " | "@ + self.name@,
        }
    }

    /// The area that tells the place from others of its name: of several
    /// administrative areas the last but one, else the only one, if there
    /// is one.
    pub fn get_district(&self) -> (r: Option<&String>)
        ensures
            is_district(r, self.district()),
    {
        let ghost fields = seq![
            area(self.admin1),
            area(self.admin2),
            area(self.admin3),
            area(self.admin4),
        ];
        let mut present_admins: Vec<&String> = Vec::new();
        let ghost mut seen: Seq<Option<Seq<char>>> = Seq::empty();
        if let Some(admin) = &self.admin1 {
            present_admins.push(admin);
        }
        proof {
            seen = seen.push(area(self.admin1));
            assert(seen.drop_last() == Seq::<Option<Seq<char>>>::empty());
            assert(present(Seq::<Option<Seq<char>>>::empty()) == Seq::<Seq<char>>::empty());
            assert(names(present_admins@) == present(seen));
        }
        if let Some(admin) = &self.admin2 {
            present_admins.push(admin);
        }
        proof {
            let before = seen;
            seen = seen.push(area(self.admin2));
            assert(seen.drop_last() == before);
            assert(names(present_admins@) == present(seen));
        }
        if let Some(admin) = &self.admin3 {
            present_admins.push(admin);
        }
        proof {
            let before = seen;
            seen = seen.push(area(self.admin3));
            assert(seen.drop_last() == before);
            assert(names(present_admins@) == present(seen));
        }
        if let Some(admin) = &self.admin4 {
            present_admins.push(admin);
        }
        proof {
            let before = seen;
            seen = seen.push(area(self.admin4));
            assert(seen.drop_last() == before);
            assert(names(present_admins@) == present(seen));
            assert(seen == fields);
        }
        let count: usize = present_admins.len();
        if count == 0 {
            None
        } else if count == 1 {
            Some(present_admins[0])
        } else {
            Some(present_admins[count - 2])
        }
    }

    /// The line that stands for the place in a list: the flag of its
    /// country, its name and, where it has one, its district.
    pub fn label(&self) -> (r: String)
        ensures
            r@ == self.label_text(),
    {
        let mut r = flag_of(self.country.as_str());
        r.append(" | ");
        r.append(self.name.as_str());
        match self.get_district() {
            Some(district) => {
                r.append(", ");
                r.append(district.as_str());
            },
            None => {},
        }
        r
    }
}

/// The views of a list of borrowed strings.
pub open spec fn names(v: Seq<&String>) -> Seq<Seq<char>> {
    Seq::new(v.len(), |i: int| v[i]@)
}

/// The address under which places called `name` are searched for: `base`
/// with the name as one more parameter of its query.
pub fn search_url(base: &str, name: &str) -> (url: String)
    ensures
        url@ == base@ + "&name="@ + name@,
{
    let mut url = String::from_str(base);
    url.append("&name=");
    url.append(name);
    url
}

} // verus!
