pub mod resources;
pub mod systems;

use core::any::TypeId;
use vstd::prelude::*;
use crate::text::chars_of;

verus! {

/// The characters at which the shortening of a type name splits it.
pub open spec fn is_name_delimiter(c: char) -> bool {
    c == '<' || c == '>' || c == '(' || c == ')' || c == '[' || c == ']' || c == ',' || c == ';'
}

/// The suffix that marks a closure's type name: `::{{closure}}`.
pub open spec fn closure_suffix() -> Seq<char> {
    seq![':', ':', '{', '{', 'c', 'l', 'o', 's', 'u', 'r', 'e', '}', '}']
}

/// `s` ends with `::{{closure}}`.
pub open spec fn ends_with_closure_suffix(s: Seq<char>) -> bool {
    s.len() >= 13 && s.subrange(s.len() - 13, s.len() as int) == closure_suffix()
}

/// Scanning `s` from position `i` for delimiters, every `,` or `;` that the
/// scan meets has a one-byte (ASCII) character after it. The scan moves past
/// such a separator and the character after it together, and past any other
/// delimiter or character alone.
pub open spec fn delimiter_scan_safe(s: Seq<char>, i: int) -> bool
    decreases s.len() - i,
{
    if i < 0 || i >= s.len() {
        true
    } else if s[i] == ',' || s[i] == ';' {
        i + 1 < s.len() && (s[i + 1] as int) < 0x80 && delimiter_scan_safe(s, i + 2)
    } else {
        delimiter_scan_safe(s, i + 1)
    }
}

/// The shortening of a type name does not panic on `s`: a name ending with
/// `::{{closure}}` is shortened without that suffix, and otherwise each `,`
/// or `;` that the scan meets must be followed by a one-byte character,
/// since the shortening slices two bytes past it.
pub open spec fn shortening_safe(s: Seq<char>) -> bool
    decreases s.len(),
{
    if ends_with_closure_suffix(s) {
        shortening_safe(s.take(s.len() - 13))
    } else {
        delimiter_scan_safe(s, 0)
    }
}

fn ends_with_closure_suffix_exec(cs: &Vec<char>, end: usize) -> (r: bool)
    requires
        end <= cs.len(),
    ensures
        r == ends_with_closure_suffix(cs@.take(end as int)),
{
    if end < 13 {
        return false;
    }
    let suffix: Vec<char> = vec![':', ':', '{', '{', 'c', 'l', 'o', 's', 'u', 'r', 'e', '}', '}'];
    assert(suffix@ =~= closure_suffix());
    let ghost t = cs@.take(end as int);
    let start = end - 13;
    let mut k: usize = 0;
    while k < 13
        invariant
            end <= cs.len(),
            start == end - 13,
            t == cs@.take(end as int),
            suffix@ == closure_suffix(),
            k <= 13,
            forall|m: int| 0 <= m < k ==> t[start + m] == suffix@[m],
        decreases 13 - k,
    {
        if cs[start + k] != suffix[k] {
            assert(t.subrange(start as int, end as int)[k as int] != closure_suffix()[k as int]);
            return false;
        }
        k += 1;
    }
    assert(t.subrange(start as int, end as int) =~= closure_suffix());
    true
}

/// Whether shortening the type name `s` is free of panics.
pub fn shortening_is_safe(s: &str) -> (r: bool)
    ensures
        r == shortening_safe(s@),
{
    let cs = chars_of(s);
    let mut end: usize = cs.len();
    assert(cs@.take(end as int) =~= s@);
    while ends_with_closure_suffix_exec(&cs, end)
        invariant
            end <= cs.len(),
            cs@ == s@,
            shortening_safe(s@) == shortening_safe(cs@.take(end as int)),
        decreases end,
    {
        assert(cs@.take(end as int).take(end - 13) =~= cs@.take(end - 13));
        end = end - 13;
    }
    let ghost t = cs@.take(end as int);
    assert(shortening_safe(s@) == delimiter_scan_safe(t, 0));
    let mut i: usize = 0;
    while i < end
        invariant
            end <= cs.len(),
            t == cs@.take(end as int),
            shortening_safe(s@) == delimiter_scan_safe(t, 0),
            i <= end + 1,
            delimiter_scan_safe(t, 0) == delimiter_scan_safe(t, i as int),
        decreases end + 1 - i,
    {
        let c = cs[i];
        if c == ',' || c == ';' {
            if i + 1 >= end {
                return false;
            }
            if cs[i + 1] >= '\u{80}' {
                return false;
            }
            i = i + 2;
        } else {
            i = i + 1;
        }
    }
    true
}

/// What `pretty_type_name::pretty_type_name_str` makes of a type name: each
/// path in it cut down to its last segment.
pub uninterp spec fn shortened_name_of(raw_name: Seq<char>) -> Seq<char>;

/// `pretty_type_name::pretty_type_name_str`. Its source strips a trailing
/// `::{{closure}}` and shortens the rest, and it slices two bytes past each
/// `,` or `;` that its scan meets, which panics where fewer follow or the
/// second ends inside a character; `shortening_safe` excludes exactly those names.
#[verifier::external_body]
fn pretty_type_name_str(raw_name: &str) -> (r: String)
    requires
        shortening_safe(raw_name@),
    ensures
        r@ == shortened_name_of(raw_name@),
{
    pretty_type_name::pretty_type_name_str(raw_name)
}

/// The short name the components view shows for a component's type name.
pub fn pretty_component_name(raw_name: &str) -> (r: String)
    requires
        shortening_safe(raw_name@),
    ensures
        r@ == shortened_name_of(raw_name@),
{
    pretty_type_name_str(raw_name)
}

/// What the world's component registry says of a component.
pub struct ComponentDescription {
    /// the component's registered name.
    pub name: String,
    /// the Rust type behind the component, if it has one.
    pub type_id: Option<TypeId>,
    /// the size of the component's values in bytes.
    pub size: usize,
}

/// What the components view shows of a component.
pub struct ComponentInfo {
    /// the component's name, shortened.
    pub name: String,
    /// the index of the component in the world.
    pub component_id: usize,
    pub type_id: Option<TypeId>,
    pub size: usize,
}

/// The component info for a type: nothing when the world knows no component
/// for the type or holds no description of it; otherwise the description with
/// its name shortened.
pub fn component_info_for(component_id: Option<usize>, description: Option<ComponentDescription>) -> (r:
    Option<ComponentInfo>)
    requires
        description matches Some(d) ==> shortening_safe(d.name@),
    ensures
        r is Some <==> (component_id is Some && description is Some),
        r matches Some(info) ==> {
            &&& info.component_id == component_id->0
            &&& info.name@ == shortened_name_of(description->0.name@)
            &&& info.type_id == description->0.type_id
            &&& info.size == description->0.size
        },
{
    let component_id = match component_id {
        Some(id) => id,
        None => return None,
    };
    let description = match description {
        Some(d) => d,
        None => return None,
    };
    let name = pretty_type_name_str(description.name.as_str());
    Some(component_info_named(component_id, description, name))
}

/// The component info made of a component's index, its description, and the
/// short name that stands in for the description's name.
pub fn component_info_named(component_id: usize, description: ComponentDescription, name: String) -> (r:
    ComponentInfo)
    ensures
        r.component_id == component_id,
        r.name == name,
        r.type_id == description.type_id,
        r.size == description.size,
{
    ComponentInfo { name, component_id, type_id: description.type_id, size: description.size }
}

/// The type whose value the view fetches for a component; with no info, or
/// no Rust type behind the component, there is none and the view passes the
/// component over.
pub fn component_type_to_fetch(info: &Option<ComponentInfo>) -> (r: Option<TypeId>)
    ensures
        r == match info {
            Some(i) => i.type_id,
            None => None,
        },
{
    match info {
        Some(i) => i.type_id,
        None => None,
    }
}

/// Why a component's value could not be fetched from the world.
#[derive(Debug, Clone, Copy, PartialEq, Eq, Structural)]
pub enum AccessErrorKind {
    NoAccessToResource,
    NoAccessToComponent,
    ResourceDoesNotExist,
    ComponentDoesNotExist,
    NoComponentId,
    NoTypeRegistration,
    NoTypeData,
}

impl AccessErrorKind {
    /// Whether the view reports the error: an entity that merely lacks the
    /// component, or a missing resource, is passed over in silence.
    pub fn is_reported(&self) -> (r: bool)
        ensures
            r == !(*self == AccessErrorKind::ResourceDoesNotExist || *self
                == AccessErrorKind::ComponentDoesNotExist),
    {
        match self {
            AccessErrorKind::NoAccessToResource => true,
            AccessErrorKind::NoAccessToComponent => true,
            AccessErrorKind::ResourceDoesNotExist => false,
            AccessErrorKind::ComponentDoesNotExist => false,
            AccessErrorKind::NoComponentId => true,
            AccessErrorKind::NoTypeRegistration => true,
            AccessErrorKind::NoTypeData => true,
        }
    }
}

/// How the view shows a component once its value has been asked for.
#[derive(Debug, Clone, Copy, PartialEq, Eq, Structural)]
pub enum ComponentDisplay {
    /// the value could not be fetched: nothing is shown.
    Skip,
    /// the component holds no data: a header with nothing under it.
    EmptyHeader,
    /// a header over an inspector of the value.
    Inspector,
}

/// How a component is shown, from whether its value was fetched and its size.
pub fn component_display(fetched: bool, size: usize) -> (r: ComponentDisplay)
    ensures
        r == (if !fetched {
            ComponentDisplay::Skip
        } else if size == 0 {
            ComponentDisplay::EmptyHeader
        } else {
            ComponentDisplay::Inspector
        }),
{
    if !fetched {
        ComponentDisplay::Skip
    } else if size == 0 {
        ComponentDisplay::EmptyHeader
    } else {
        ComponentDisplay::Inspector
    }
}

} // verus!
