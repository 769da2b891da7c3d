//! Zone names, the catalog that lists them, and the lookup that turns what a
//! user typed into one of them.
//!
//! A catalog is an ordered list of canonical names. Lookup first takes the
//! typed text as a name; failing that it lowers the text and returns the first
//! name, in the catalog's order, whose display form holds it.

use crate::text::{
    contains, infix_lacks_what_hay_lacks, infix_of_itself, is_infix, lowercase, lowercase_of,
    replace_char, swapped, swapped_has_no_from,
};
use vstd::prelude::*;
use vstd::string::*;

verus! {

/// The name that the time zone database lists at a position of its
/// enumeration, where it lists one.
pub uninterp spec fn iana_name_at(position: int) -> Option<Seq<char>>;

/// Whether the database lists exactly `count` names, at the positions below
/// `count`.
pub open spec fn is_iana_count(count: int) -> bool {
    &&& 0 <= count
    &&& iana_name_at(count) is None
    &&& forall|i: int| 0 <= i < count ==> (#[trigger] iana_name_at(i)) is Some
}

/// The names of the time zone database, in its order.
pub open spec fn iana_names() -> Seq<Seq<char>> {
    let count = choose|count: int| is_iana_count(count);
    Seq::new(count as nat, |i: int| iana_name_at(i)->0)
}

/// Reads the length of `chrono_tz::TZ_VARIANTS`. Trusted: the array has an
/// entry at every position below its length and none from there on.
#[verifier::external_body]
pub(crate) fn iana_len() -> (count: usize)
    ensures
        is_iana_count(count as int),
{
    chrono_tz::TZ_VARIANTS.len()
}

/// Calls `chrono_tz::Tz::name` on one entry of `chrono_tz::TZ_VARIANTS`.
/// Trusted: the result is the name that the database lists there.
#[verifier::external_body]
pub(crate) fn iana_name(position: usize) -> (name: &'static str)
    requires
        iana_name_at(position as int) is Some,
    ensures
        iana_name_at(position as int) == Some(name@),
{
    chrono_tz::TZ_VARIANTS[position].name()
}

/// What each string of a list reads as.
pub open spec fn views_of(strings: Seq<String>) -> Seq<Seq<char>> {
    Seq::new(strings.len(), |i: int| strings[i]@)
}

/// The form under which a name is searched: lower case, with a space for
/// every underscore.
pub open spec fn display_name(name: Seq<char>) -> Seq<char> {
    swapped(lowercase_of(name), '_', ' ')
}

/// The display forms of a list of names, in the same order.
pub open spec fn display_names(names: Seq<Seq<char>>) -> Seq<Seq<char>> {
    Seq::new(names.len(), |i: int| display_name(names[i]))
}

/// Whether `at` is the first position of `texts` whose text holds `token`.
pub open spec fn is_first_holding(texts: Seq<Seq<char>>, token: Seq<char>, at: int) -> bool {
    &&& 0 <= at < texts.len()
    &&& is_infix(token, texts[at])
    &&& forall|before: int| 0 <= before < at ==> !is_infix(token, #[trigger] texts[before])
}

/// The first position of `texts` whose text holds `token`, if any does.
pub open spec fn first_holding(texts: Seq<Seq<char>>, token: Seq<char>) -> Option<int> {
    if exists|at: int| is_first_holding(texts, token, at) {
        Some(choose|at: int| is_first_holding(texts, token, at))
    } else {
        None
    }
}

/// The name that a typed text stands for in a catalog: the text itself where
/// it is one of the names; else the first name whose display form holds the
/// lowered text; else none.
pub open spec fn resolution(names: Seq<Seq<char>>, raw: Seq<char>) -> Option<Seq<char>> {
    if names.contains(raw) {
        Some(raw)
    } else {
        match first_holding(display_names(names), lowercase_of(raw)) {
            Some(at) => Some(names[at]),
            None => None,
        }
    }
}

/// At most one position is the first that holds a token, and `first_holding`
/// names it.
pub proof fn first_holding_is_unique(texts: Seq<Seq<char>>, token: Seq<char>, at: int)
    requires
        is_first_holding(texts, token, at),
    ensures
        first_holding(texts, token) == Some(at),
{
    let chosen = choose|at: int| is_first_holding(texts, token, at);
    if chosen < at {
        assert(!is_infix(token, texts[chosen]));
    } else if at < chosen {
        assert(!is_infix(token, texts[at]));
    }
}

/// Where some text holds the token, there is a first one that does.
pub proof fn some_holding_gives_first(texts: Seq<Seq<char>>, token: Seq<char>, at: int)
    requires
        0 <= at < texts.len(),
        is_infix(token, texts[at]),
    ensures
        first_holding(texts, token) matches Some(first) && first <= at && is_first_holding(
            texts,
            token,
            first,
        ),
    decreases at,
{
    if forall|before: int| 0 <= before < at ==> !is_infix(token, #[trigger] texts[before]) {
        assert(is_first_holding(texts, token, at));
        first_holding_is_unique(texts, token, at);
    } else {
        let before = choose|before: int| 0 <= before < at && is_infix(token, #[trigger] texts[before]);
        some_holding_gives_first(texts, token, before);
    }
}

/// A canonical zone name, taken from a catalog.
#[derive(Debug, PartialEq, Eq, Hash)]
pub struct Zone {
    name: String,
}

impl Clone for Zone {
    fn clone(&self) -> (copy: Zone)
        ensures
            copy == *self,
    {
        Zone { name: self.name.clone() }
    }
}

impl View for Zone {
    type V = Seq<char>;

    closed spec fn view(&self) -> Seq<char> {
        self.name@
    }
}

impl Zone {
    /// The canonical name.
    pub fn name(&self) -> (name: &str)
        ensures
            name@ == self@,
    {
        self.name.as_str()
    }
}

/// An ordered list of canonical zone names, each kept with its display form.
#[derive(Debug)]
pub struct Catalog {
    names: Vec<String>,
    shown: Vec<String>,
}

impl View for Catalog {
    type V = Seq<Seq<char>>;

    closed spec fn view(&self) -> Seq<Seq<char>> {
        views_of(self.names@)
    }
}

/// The position of the first string that holds `token`.
pub fn find_holding(texts: &Vec<String>, token: &str) -> (found: Option<usize>)
    ensures
        match found {
            Some(at) => at < texts.len() && first_holding(views_of(texts@), token@) == Some(
                at as int,
            ),
            None => first_holding(views_of(texts@), token@) is None,
        },
{
    let ghost views = views_of(texts@);
    let mut at: usize = 0;
    while at < texts.len()
        invariant
            at <= texts.len(),
            views == views_of(texts@),
            forall|before: int| 0 <= before < at ==> !is_infix(token@, #[trigger] views[before]),
        decreases texts.len() - at,
    {
        if contains(texts[at].as_str(), token) {
            proof {
                assert(views[at as int] == texts[at as int]@);
                assert(is_first_holding(views, token@, at as int));
                first_holding_is_unique(views, token@, at as int);
            }
            return Some(at);
        }
        assert(views[at as int] == texts[at as int]@);
        at += 1;
    }
    proof {
        if exists|first: int| is_first_holding(views, token@, first) {
            let first = choose|first: int| is_first_holding(views, token@, first);
            assert(!is_infix(token@, views[first]));
        }
    }
    None
}

impl Catalog {
    #[verifier::type_invariant]
    spec fn shown_follows_names(&self) -> bool {
        views_of(self.shown@) == display_names(views_of(self.names@))
    }

    /// A catalog of the given names, in the given order.
    pub fn from_names(names: Vec<String>) -> (catalog: Catalog)
        ensures
            catalog@ == views_of(names@),
    {
        let mut shown: Vec<String> = Vec::new();
        let mut at: usize = 0;
        while at < names.len()
            invariant
                at <= names.len(),
                shown.len() == at,
                forall|i: int| 0 <= i < at ==> (#[trigger] shown[i])@ == display_name(names[i]@),
            decreases names.len() - at,
        {
            let lowered = lowercase(names[at].as_str());
            proof {
                reveal_strlit(" ");
            }
            let display = replace_char(lowered.as_str(), '_', " ");
            shown.push(display);
            at += 1;
        }
        assert(views_of(shown@) =~= display_names(views_of(names@)));
        Catalog { names, shown }
    }

    /// The names of the time zone database, in its order.
    pub fn iana() -> (catalog: Catalog)
        ensures
            catalog@ == iana_names(),
    {
        let count = iana_len();
        let mut names: Vec<String> = Vec::new();
        let mut position: usize = 0;
        while position < count
            invariant
                position <= count,
                is_iana_count(count as int),
                names.len() == position,
                forall|i: int| 0 <= i < position ==> iana_name_at(i) == Some((#[trigger] names[i])@),
            decreases count - position,
        {
            let name = iana_name(position);
            names.push(name.to_owned());
            position += 1;
        }
        proof {
            let chosen = choose|chosen: int| is_iana_count(chosen);
            if chosen < count {
                assert(iana_name_at(chosen) is Some);
            } else if count < chosen {
                assert(iana_name_at(count as int) is Some);
            }
            assert(views_of(names@) =~= iana_names());
        }
        Catalog::from_names(names)
    }

    /// How many names the catalog lists.
    pub fn len(&self) -> (count: usize)
        ensures
            count == self@.len(),
    {
        self.names.len()
    }

    /// The zone at a position of the catalog.
    pub fn zone_at(&self, position: usize) -> (zone: Zone)
        requires
            position < self@.len(),
        ensures
            zone@ == self@[position as int],
    {
        Zone { name: self.names[position].clone() }
    }

    /// The zone whose canonical name is exactly `name`, letter for letter.
    pub fn find(&self, name: &str) -> (found: Option<Zone>)
        ensures
            match found {
                Some(zone) => self@.contains(name@) && zone@ == name@,
                None => !self@.contains(name@),
            },
    {
        let wanted: String = name.to_owned();
        let mut at: usize = 0;
        while at < self.names.len()
            invariant
                at <= self.names.len(),
                wanted@ == name@,
                forall|before: int| 0 <= before < at ==> (#[trigger] self@[before]) != name@,
            decreases self.names.len() - at,
        {
            if self.names[at] == wanted {
                assert(self@[at as int] == name@);
                return Some(self.zone_at(at));
            }
            at += 1;
        }
        None
    }

    /// The zone that a typed text stands for: the zone of that very name where
    /// the catalog lists it, else the first zone whose display form holds the
    /// lowered text, else none.
    pub fn resolve(&self, raw: &str) -> (found: Option<Zone>)
        ensures
            match found {
                Some(zone) => resolution(self@, raw@) == Some(zone@),
                None => resolution(self@, raw@) is None,
            },
    {
        match self.find(raw) {
            Some(zone) => Some(zone),
            None => {
                let token = lowercase(raw);
                proof {
                    use_type_invariant(self);
                }
                match find_holding(&self.shown, token.as_str()) {
                    Some(at) => Some(self.zone_at(at)),
                    None => None,
                }
            },
        }
    }
}

/// The zone of the time zone database that a typed text stands for: the zone
/// of that very name, else the first zone of the database whose display form
/// holds the lowered text, else none.
pub fn parse_tz(tz: &str) -> (found: Option<Zone>)
    ensures
        match found {
            Some(zone) => resolution(iana_names(), tz@) == Some(zone@),
            None => resolution(iana_names(), tz@) is None,
        },
{
    Catalog::iana().resolve(tz)
}

/// A canonical name stands for itself: looked up as typed, every name of a
/// catalog resolves to that same name.
pub proof fn canonical_name_resolves_to_itself(names: Seq<Seq<char>>, name: Seq<char>)
    requires
        names.contains(name),
    ensures
        resolution(names, name) == Some(name),
{
}

/// Whatever a text resolves to is a name of the catalog.
pub proof fn resolved_name_is_canonical(names: Seq<Seq<char>>, raw: Seq<char>)
    ensures
        resolution(names, raw) matches Some(name) ==> names.contains(name),
{
    if let Some(at) = first_holding(display_names(names), lowercase_of(raw)) {
        assert(is_first_holding(display_names(names), lowercase_of(raw), at));
    }
}

/// A text that is no canonical name resolves to the first name, in the
/// catalog's order, whose display form holds the lowered text: of two names
/// that hold it, the earlier wins.
pub proof fn loose_text_resolves_to_first_holder(
    names: Seq<Seq<char>>,
    raw: Seq<char>,
    at: int,
)
    requires
        !names.contains(raw),
        0 <= at < names.len(),
        is_infix(lowercase_of(raw), display_name(names[at])),
    ensures
        resolution(names, raw) matches Some(name) && exists|first: int|
            0 <= first <= at && name == names[first] && is_first_holding(
                display_names(names),
                lowercase_of(raw),
                first,
            ),
{
    some_holding_gives_first(display_names(names), lowercase_of(raw), at);
}

/// A lower-case token that the display form of some name holds resolves to a
/// name of the catalog whose display form holds it.
pub proof fn held_token_resolves_to_a_holder(
    names: Seq<Seq<char>>,
    token: Seq<char>,
    holder: Seq<char>,
)
    requires
        lowercase_of(token) == token,
        names.contains(holder),
        is_infix(token, display_name(holder)),
    ensures
        resolution(names, token) matches Some(name) && names.contains(name) && is_infix(
            token,
            display_name(name),
        ),
{
    if names.contains(token) {
        swapped_has_no_from(lowercase_of(holder), '_', ' ');
        infix_lacks_what_hay_lacks(token, display_name(holder), '_');
        swapped_has_no_from(token, '_', ' ');
        infix_of_itself(token);
    } else {
        let at = choose|at: int| 0 <= at < names.len() && names[at] == holder;
        loose_text_resolves_to_first_holder(names, token, at);
    }
}

/// A text that is no canonical name, and that no display form holds once
/// lowered, resolves to nothing.
pub proof fn unknown_text_resolves_to_nothing(names: Seq<Seq<char>>, raw: Seq<char>)
    requires
        !names.contains(raw),
        forall|at: int|
            0 <= at < names.len() ==> !is_infix(lowercase_of(raw), display_name(#[trigger] names[at])),
    ensures
        resolution(names, raw) is None,
{
    let shown = display_names(names);
    if exists|at: int| is_first_holding(shown, lowercase_of(raw), at) {
        let at = choose|at: int| is_first_holding(shown, lowercase_of(raw), at);
        assert(shown[at] == display_name(names[at]));
    }
}

} // verus!
