//! The city record: its decoding from a key/value document, and the text
//! fields it hands to SQL statements.

use vstd::prelude::*;
use vstd::utf8::*;

use crate::numeric::{decimal_string, i32_to_decimal, lemma_decimal_roundtrip, spec_parse_i32};
use crate::text::{has_prefix, starts_with, string_from_utf8, strip_prefix, utf8_bytes};

verus! {

/// The error of rendering a city's fields.
#[derive(Debug, Clone, Copy, PartialEq, Eq, Structural)]
pub enum CityError {
    /// The stored country bytes are not valid UTF-8.
    BadCountryValue,
}

impl CityError {
    /// The message the error is shown with.
    pub fn message(&self) -> (r: String)
        ensures
            r@ == "Bad vector for Country"@,
    {
        String::from_str("Bad vector for Country")
    }
}

/// A city as stored in the `cities` table.
#[derive(Debug)]
pub struct City {
    pub id: i32,
    /// The city's name (the `name` column).
    pub noname: String,
    /// The country, as the bytes of its UTF-8 text.
    pub country: Vec<u8>,
    pub population: i32,
    pub area: i32,
}

/// The mathematical value of a [`City`].
pub struct CityView {
    pub id: i32,
    pub noname: Seq<char>,
    pub country: Seq<u8>,
    pub population: i32,
    pub area: i32,
}

impl View for City {
    type V = CityView;

    open spec fn view(&self) -> CityView {
        CityView {
            id: self.id,
            noname: self.noname@,
            country: self.country@,
            population: self.population,
            area: self.area,
        }
    }
}

/// The city every decoding starts from: zero numbers and empty texts.
pub open spec fn empty_city() -> CityView {
    CityView { id: 0, noname: Seq::empty(), country: Seq::empty(), population: 0, area: 0 }
}

impl Default for City {
    fn default() -> (c: City)
        ensures
            c@ == empty_city(),
    {
        City { id: 0, noname: String::new(), country: Vec::new(), population: 0, area: 0 }
    }
}

/// The four text fields of a city, in statement order (name, country,
/// population, area), or the error when the country is not UTF-8 text.
pub open spec fn spec_all_fields(c: CityView) -> Result<Seq<Seq<char>>, CityError> {
    if valid_utf8(c.country) {
        Ok(
            seq![
                c.noname,
                decode_utf8(c.country),
                decimal_string(c.population as int),
                decimal_string(c.area as int),
            ],
        )
    } else {
        Err(CityError::BadCountryValue)
    }
}

/// The texts that a vector of strings holds.
pub open spec fn texts(v: Seq<String>) -> Seq<Seq<char>> {
    v.map_values(|s: String| s@)
}

/// A model whose fields can be bound to the parameters of an insert or
/// update statement.
pub trait GetAllFields {
    /// The model's text fields, or the error of rendering them.
    spec fn spec_fields(&self) -> Result<Seq<Seq<char>>, CityError>;

    /// The model's four text fields (two texts, then two that read back as
    /// `i32` numbers), or the error of rendering them.
    fn get_all_fields(&self) -> (r: Result<Vec<String>, CityError>)
        ensures
            match r {
                Ok(f) => self.spec_fields() == Ok::<_, CityError>(texts(f@)),
                Err(e) => self.spec_fields() == Err::<Seq<Seq<char>>, _>(e),
            },
            r matches Ok(f) ==> {
                &&& f.len() == 4
                &&& spec_parse_i32(f[2]@, 10) is Some
                &&& spec_parse_i32(f[3]@, 10) is Some
            },
    ;
}

impl GetAllFields for City {
    /// Name, country text, population and area in decimal; an error when
    /// the country bytes are not UTF-8.
    open spec fn spec_fields(&self) -> Result<Seq<Seq<char>>, CityError> {
        spec_all_fields(self@)
    }

    fn get_all_fields(&self) -> (r: Result<Vec<String>, CityError>) {
        let country = match string_from_utf8(self.country.clone()) {
            Some(s) => s,
            None => return Err(CityError::BadCountryValue),
        };
        let population = i32_to_decimal(self.population);
        let area = i32_to_decimal(self.area);
        proof {
            lemma_decimal_roundtrip(self.population);
            lemma_decimal_roundtrip(self.area);
        }
        let f = vec![self.noname.clone(), country, population, area];
        assert(texts(f@) =~= spec_all_fields(self@)->Ok_0);
        Ok(f)
    }
}


/// The field of a city that a document key sets.
#[derive(Debug, Clone, Copy, PartialEq, Eq, Structural)]
pub enum CityKey {
    /// Any key that begins with `country`.
    Country,
    Noname,
    Population,
    Area,
    /// A key that sets no field.
    Ignored,
}

/// The characters of `country`, the prefix that marks country keys.
pub open spec fn country_prefix() -> Seq<char> {
    seq!['c', 'o', 'u', 'n', 't', 'r', 'y']
}

/// The field that document key `key` sets.
pub open spec fn spec_city_key(key: Seq<char>) -> CityKey {
    if has_prefix(key, country_prefix()) {
        CityKey::Country
    } else if key == seq!['n', 'o', 'n', 'a', 'm', 'e'] {
        CityKey::Noname
    } else if key == seq!['p', 'o', 'p', 'u', 'l', 'a', 't', 'i', 'o', 'n'] {
        CityKey::Population
    } else if key == seq!['a', 'r', 'e', 'a'] {
        CityKey::Area
    } else {
        CityKey::Ignored
    }
}

/// The field that document key `key` sets: a key beginning with `country`
/// sets the country; `noname`, `population` and `area` set their fields;
/// any other key sets nothing.
pub fn classify_key(key: &str) -> (r: CityKey)
    ensures
        r == spec_city_key(key@),
{
    proof {
        reveal_strlit("country");
        reveal_strlit("noname");
        reveal_strlit("population");
        reveal_strlit("area");
    }
    assert("country"@ =~= country_prefix());
    if starts_with(key, "country") {
        CityKey::Country
    } else if crate::text::str_eq(key, "noname") {
        assert("noname"@ =~= seq!['n', 'o', 'n', 'a', 'm', 'e']);
        CityKey::Noname
    } else if crate::text::str_eq(key, "population") {
        assert("population"@ =~= seq!['p', 'o', 'p', 'u', 'l', 'a', 't', 'i', 'o', 'n']);
        CityKey::Population
    } else if crate::text::str_eq(key, "area") {
        assert("area"@ =~= seq!['a', 'r', 'e', 'a']);
        CityKey::Area
    } else {
        assert("noname"@ =~= seq!['n', 'o', 'n', 'a', 'm', 'e']);
        assert("population"@ =~= seq!['p', 'o', 'p', 'u', 'l', 'a', 't', 'i', 'o', 'n']);
        assert("area"@ =~= seq!['a', 'r', 'e', 'a']);
        CityKey::Ignored
    }
}

/// A value of a document entry, as the document's reader delivers it.
#[derive(Debug)]
pub enum EntryValue {
    Text(String),
    Integer(i64),
    /// Anything that is neither text nor an integer.
    Other,
}

/// The mathematical value of an [`EntryValue`].
pub enum EntryValueView {
    Text(Seq<char>),
    Integer(i64),
    Other,
}

impl View for EntryValue {
    type V = EntryValueView;

    open spec fn view(&self) -> EntryValueView {
        match self {
            EntryValue::Text(s) => EntryValueView::Text(s@),
            EntryValue::Integer(n) => EntryValueView::Integer(*n),
            EntryValue::Other => EntryValueView::Other,
        }
    }
}

/// Why a document does not decode to a city.
#[derive(Debug, Clone, Copy, PartialEq, Eq, Structural)]
pub enum CityDecodeError {
    /// A country, name or area value that is not text.
    ExpectedText,
    /// A population value that is not an integer in the `i32` range.
    ExpectedI32,
    /// An area text that does not begin with `0x`.
    AreaMissingPrefix,
    /// An area text whose rest is no hexadecimal `i32`.
    AreaNotHexI32,
}

impl CityDecodeError {
    /// What was found in place of the expected value.
    pub fn unexpected(&self) -> (r: &'static str)
        ensures
            *self == CityDecodeError::AreaMissingPrefix ==> r@ == "not string or didnt start with 0x"@,
            *self == CityDecodeError::AreaNotHexI32 ==> r@
                == "value might be lt -2147483648 | gt 2147483647"@,
            *self == CityDecodeError::ExpectedText ==> r@ == "a value that is not a string"@,
            *self == CityDecodeError::ExpectedI32 ==> r@ == "a value that is not an i32"@,
    {
        match self {
            CityDecodeError::ExpectedText => "a value that is not a string",
            CityDecodeError::ExpectedI32 => "a value that is not an i32",
            CityDecodeError::AreaMissingPrefix => "not string or didnt start with 0x",
            CityDecodeError::AreaNotHexI32 => "value might be lt -2147483648 | gt 2147483647",
        }
    }
}

/// The characters `0x`.
pub open spec fn hex_marker() -> Seq<char> {
    seq!['0', 'x']
}

/// The area that text `t` denotes: `0x` followed by an `i32` in
/// hexadecimal, with an optional sign after the `0x`.
pub open spec fn spec_area(t: Seq<char>) -> Result<i32, CityDecodeError> {
    if has_prefix(t, hex_marker()) {
        match spec_parse_i32(t.skip(2), 16) {
            Some(v) => Ok(v),
            None => Err(CityDecodeError::AreaNotHexI32),
        }
    } else {
        Err(CityDecodeError::AreaMissingPrefix)
    }
}

/// Reads an area written as `0x` and a hexadecimal `i32`.
pub fn parse_area(t: &str) -> (r: Result<i32, CityDecodeError>)
    ensures
        r == spec_area(t@),
{
    proof {
        reveal_strlit("0x");
    }
    assert("0x"@ =~= hex_marker());
    match strip_prefix(t, "0x") {
        None => Err(CityDecodeError::AreaMissingPrefix),
        Some(rest) => match crate::numeric::parse_i32_radix(rest, 16) {
            Some(v) => Ok(v),
            None => Err(CityDecodeError::AreaNotHexI32),
        },
    }
}

/// `c` after the document entry `key: v`.
pub open spec fn spec_apply(c: CityView, key: Seq<char>, v: EntryValueView) -> Result<
    CityView,
    CityDecodeError,
> {
    match spec_city_key(key) {
        CityKey::Country => match v {
            EntryValueView::Text(t) => Ok(CityView { country: encode_utf8(t), ..c }),
            _ => Err(CityDecodeError::ExpectedText),
        },
        CityKey::Noname => match v {
            EntryValueView::Text(t) => Ok(CityView { noname: t, ..c }),
            _ => Err(CityDecodeError::ExpectedText),
        },
        CityKey::Population => match v {
            EntryValueView::Integer(n) => if i32::MIN <= n <= i32::MAX {
                Ok(CityView { population: n as i32, ..c })
            } else {
                Err(CityDecodeError::ExpectedI32)
            },
            _ => Err(CityDecodeError::ExpectedI32),
        },
        CityKey::Area => match v {
            EntryValueView::Text(t) => match spec_area(t) {
                Ok(a) => Ok(CityView { area: a, ..c }),
                Err(e) => Err(e),
            },
            _ => Err(CityDecodeError::ExpectedText),
        },
        CityKey::Ignored => Ok(c),
    }
}

/// The city that the entries `es` decode to, entry after entry from the
/// empty city, or the error of the first entry that fails.
pub open spec fn spec_decode(es: Seq<(Seq<char>, EntryValueView)>) -> Result<
    CityView,
    CityDecodeError,
>
    decreases es.len(),
{
    if es.len() == 0 {
        Ok(empty_city())
    } else {
        match spec_decode(es.drop_last()) {
            Ok(c) => spec_apply(c, es.last().0, es.last().1),
            Err(e) => Err(e),
        }
    }
}

/// The mathematical value of a list of document entries.
pub open spec fn entries_view(es: Seq<(String, EntryValue)>) -> Seq<(Seq<char>, EntryValueView)> {
    es.map_values(|p: (String, EntryValue)| (p.0@, p.1@))
}

impl City {
    /// Applies the document entry `key: value` to this city.
    pub fn apply_entry(&mut self, key: &str, value: &EntryValue) -> (r: Result<(), CityDecodeError>)
        ensures
            match spec_apply(old(self)@, key@, value@) {
                Ok(c) => r is Ok && final(self)@ == c,
                Err(e) => r == Err::<(), _>(e),
            },
    {
        match classify_key(key) {
            CityKey::Country => match value {
                EntryValue::Text(t) => {
                    self.country = utf8_bytes(t.as_str());
                    Ok(())
                },
                _ => Err(CityDecodeError::ExpectedText),
            },
            CityKey::Noname => match value {
                EntryValue::Text(t) => {
                    self.noname = t.clone();
                    Ok(())
                },
                _ => Err(CityDecodeError::ExpectedText),
            },
            CityKey::Population => match value {
                EntryValue::Integer(n) => {
                    if i32::MIN as i64 <= *n && *n <= i32::MAX as i64 {
                        self.population = *n as i32;
                        Ok(())
                    } else {
                        Err(CityDecodeError::ExpectedI32)
                    }
                },
                _ => Err(CityDecodeError::ExpectedI32),
            },
            CityKey::Area => match value {
                EntryValue::Text(t) => {
                    let a: i32 = parse_area(t.as_str())?;
                    self.area = a;
                    Ok(())
                },
                _ => Err(CityDecodeError::ExpectedText),
            },
            CityKey::Ignored => Ok(()),
        }
    }
}

/// Decodes a city from the entries of a document.
pub struct CityVisitor;

impl CityVisitor {
    /// Decodes a city from the entries of a document, in order: each entry
    /// sets the field its key names, a later entry overriding an earlier
    /// one; the first entry whose value does not fit fails the decoding.
    pub fn visit_map(entries: &Vec<(String, EntryValue)>) -> (r: Result<City, CityDecodeError>)
        ensures
            match spec_decode(entries_view(entries@)) {
                Ok(c) => r matches Ok(city) && city@ == c,
                Err(e) => r matches Err(f) && f == e,
            },
    {
        let mut city = City::default();
        let mut i: usize = 0;
        while i < entries.len()
            invariant
                i <= entries.len(),
                spec_decode(entries_view(entries@).take(i as int)) == Ok::<_, CityDecodeError>(city@),
            decreases entries.len() - i,
        {
            let ghost es = entries_view(entries@);
            assert(es.take(i as int + 1).drop_last() =~= es.take(i as int));
            let (key, value) = &entries[i];
            match city.apply_entry(key.as_str(), value) {
                Ok(()) => {},
                Err(e) => {
                    proof {
                        lemma_decode_stops_at_error(es, i as int + 1);
                    }
                    return Err(e);
                },
            }
            i = i + 1;
        }
        assert(entries_view(entries@).take(i as int) =~= entries_view(entries@));
        Ok(city)
    }
}

/// Once a prefix of the entries fails, the whole list fails the same way.
proof fn lemma_decode_stops_at_error(es: Seq<(Seq<char>, EntryValueView)>, i: int)
    requires
        0 <= i <= es.len(),
        spec_decode(es.take(i)) is Err,
    ensures
        spec_decode(es) == spec_decode(es.take(i)),
    decreases es.len() - i,
{
    if i < es.len() {
        assert(es.take(i + 1).drop_last() =~= es.take(i));
        lemma_decode_stops_at_error(es, i + 1);
    } else {
        assert(es.take(i) =~= es);
    }
}

/// What a country entry writes, rendering reads back: after the entry
/// `key: text` with a country key, the rendered country field is `text`.
pub proof fn lemma_country_roundtrip(c: CityView, key: Seq<char>, t: Seq<char>)
    requires
        spec_city_key(key) == CityKey::Country,
    ensures
        spec_apply(c, key, EntryValueView::Text(t)) matches Ok(d) && spec_all_fields(d) matches Ok(
            f,
        ) && f[1] == t,
{
    encode_utf8_valid_utf8(t);
    encode_utf8_decode_utf8(t);
}

/// A later entry for a field overrides an earlier one: once an entry for
/// key `k` has been applied, applying another entry for `k` gives what that
/// entry alone would have given.
pub proof fn lemma_later_entry_overrides(
    c: CityView,
    k: Seq<char>,
    v1: EntryValueView,
    v2: EntryValueView,
)
    requires
        spec_apply(c, k, v1) is Ok,
    ensures
        spec_apply(spec_apply(c, k, v1)->Ok_0, k, v2) == spec_apply(c, k, v2),
{
}

/// An entry sets only the field its key names: every other field of the
/// city, and the key `id` always, is as before; an entry whose key names no
/// field changes nothing.
pub proof fn lemma_entry_sets_only_its_field(c: CityView, k: Seq<char>, v: EntryValueView)
    requires
        spec_apply(c, k, v) is Ok,
    ensures
        ({
            let d = spec_apply(c, k, v)->Ok_0;
            &&& d.id == c.id
            &&& spec_city_key(k) != CityKey::Noname ==> d.noname == c.noname
            &&& spec_city_key(k) != CityKey::Country ==> d.country == c.country
            &&& spec_city_key(k) != CityKey::Population ==> d.population == c.population
            &&& spec_city_key(k) != CityKey::Area ==> d.area == c.area
        }),
{
}

/// Entries for different fields decode to the same city in either order.
pub proof fn lemma_entries_commute(
    c: CityView,
    k1: Seq<char>,
    v1: EntryValueView,
    k2: Seq<char>,
    v2: EntryValueView,
)
    requires
        spec_city_key(k1) != spec_city_key(k2),
        spec_apply(c, k1, v1) is Ok,
        spec_apply(spec_apply(c, k1, v1)->Ok_0, k2, v2) is Ok,
    ensures
        spec_apply(c, k2, v2) is Ok,
        spec_apply(spec_apply(c, k2, v2)->Ok_0, k1, v1) == spec_apply(
            spec_apply(c, k1, v1)->Ok_0,
            k2,
            v2,
        ),
{
}

/// An entry whose key names no field leaves the decoding as it was.
pub proof fn lemma_ignored_key(es: Seq<(Seq<char>, EntryValueView)>, key: Seq<char>, v: EntryValueView)
    requires
        spec_city_key(key) == CityKey::Ignored,
    ensures
        spec_decode(es.push((key, v))) == spec_decode(es),
{
    assert(es.push((key, v)).drop_last() =~= es);
}

/// Every city decoded from a document renders its fields: its country bytes
/// are always UTF-8 text, so rendering cannot fail.
pub proof fn lemma_decoded_city_renders(es: Seq<(Seq<char>, EntryValueView)>)
    requires
        spec_decode(es) is Ok,
    ensures
        valid_utf8(spec_decode(es)->Ok_0.country),
        spec_all_fields(spec_decode(es)->Ok_0) is Ok,
    decreases es.len(),
{
    if es.len() == 0 {
        assert(encode_utf8(Seq::<char>::empty()) =~= Seq::<u8>::empty()) by {
            reveal_with_fuel(encode_utf8, 1);
        }
        encode_utf8_valid_utf8(Seq::<char>::empty());
    } else {
        lemma_decoded_city_renders(es.drop_last());
        match es.last().1 {
            EntryValueView::Text(t) => {
                encode_utf8_valid_utf8(t);
            },
            _ => {},
        }
    }
}

} // verus!
