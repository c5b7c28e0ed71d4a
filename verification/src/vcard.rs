//! The trusted boundary around the vobject crate, which parses and
//! serializes the vCard documents that contact files hold.
//!
//! A component is modelled by its name and by a map from property name to
//! the ordered list of that property's values, as the crate's
//! `value_as_string` accessor reports them (that is, after unescaping).
//! Everything the library states about vCards is stated over that model.
use vstd::prelude::*;

verus! {

#[verifier::external_type_specification]
#[verifier::external_body]
pub struct ExComponent(vobject::Component);

/// The component's name (the `BEGIN:`/`END:` tag), such as `VCARD`.
pub uninterp spec fn comp_name(c: vobject::Component) -> Seq<char>;

/// The component's properties: for each property name, the ordered values,
/// as `value_as_string` reports them.
pub uninterp spec fn comp_props(c: vobject::Component) -> Map<Seq<char>, Seq<Seq<char>>>;

/// Whether the component's serialized text parses back to the same name and
/// properties. This covers what the model cannot see: raw property values
/// free of carriage returns and newlines, property names the parser accepts,
/// and parameters that re-read identically. Components built by `vcard_new`
/// and `vcard_push` always satisfy it.
pub uninterp spec fn comp_line_safe(c: vobject::Component) -> bool;

/// The serialized text of a component, a function of the component alone.
pub uninterp spec fn vcard_text_of(c: vobject::Component) -> Seq<char>;

/// A property map with nothing in it.
pub open spec fn no_props() -> Map<Seq<char>, Seq<Seq<char>>> {
    Map::empty()
}

/// The values of the property `name`, or the empty sequence if absent.
pub open spec fn prop_values(c: vobject::Component, name: Seq<char>) -> Seq<Seq<char>> {
    if comp_props(c).contains_key(name) {
        comp_props(c)[name]
    } else {
        Seq::<Seq<char>>::empty()
    }
}

/// The value of the property `name` when exactly one is present.
pub open spec fn single_prop_of(c: vobject::Component, name: Seq<char>) -> Option<Seq<char>> {
    if prop_values(c, name).len() == 1 {
        Some(prop_values(c, name)[0])
    } else {
        None
    }
}

/// A property name the parser reads back verbatim: ASCII upper-case letters,
/// digits or `-`, and not one of the two structural tags.
pub open spec fn prop_name_ok(s: Seq<char>) -> bool {
    &&& s.len() > 0
    &&& forall|i: int|
        0 <= i < s.len() ==> (('A' <= #[trigger] s[i] && s[i] <= 'Z') || ('0' <= s[i] && s[i]
            <= '9') || s[i] == '-')
    &&& s != "BEGIN"@
    &&& s != "END"@
}

/// A property value whose escaped form unescapes back to it and stays on one
/// line: no backslash and no carriage return.
pub open spec fn prop_value_safe(s: Seq<char>) -> bool {
    forall|i: int| 0 <= i < s.len() ==> #[trigger] s[i] != '\\' && s[i] != '\r'
}

/// A component name that stays on its `BEGIN:` line.
pub open spec fn comp_name_ok(s: Seq<char>) -> bool {
    forall|i: int| 0 <= i < s.len() ==> #[trigger] s[i] != '\r' && s[i] != '\n'
}

/// Relies on vobject::Component::new: a fresh component with the given name
/// and no properties.
#[verifier::external_body]
pub(crate) fn vcard_new(name: &str) -> (r: vobject::Component)
    requires
        comp_name_ok(name@),
    ensures
        comp_name(r) == name@,
        comp_props(r) == no_props(),
        comp_line_safe(r),
{
    vobject::Component::new(name)
}

/// Relies on vobject::Component::push and vobject::Property::new: appends one
/// property while preserving same-named ones; the stored value reads back
/// unchanged because escaping and unescaping agree on safe values.
#[verifier::external_body]
pub(crate) fn vcard_push(c: &mut vobject::Component, name: &str, value: &str)
    requires
        prop_name_ok(name@),
        prop_value_safe(value@),
        comp_line_safe(*old(c)),
    ensures
        comp_name(*final(c)) == comp_name(*old(c)),
        comp_props(*final(c)) == comp_props(*old(c)).insert(
            name@,
            prop_values(*old(c), name@).push(value@),
        ),
        comp_line_safe(*final(c)),
{
    c.push(vobject::Property::new(name, value));
}

/// Relies on vobject::Component::get_only and Property::value_as_string: the
/// value of the property `name` when exactly one is present, else `None`.
#[verifier::external_body]
pub(crate) fn vcard_get_only(c: &vobject::Component, name: &str) -> (r: Option<String>)
    ensures
        match r {
            Some(v) => single_prop_of(*c, name@) == Some(v@),
            None => single_prop_of(*c, name@) is None,
        },
{
    c.get_only(name).map(|p| p.value_as_string())
}

/// Relies on vobject::Component::get_all and Property::value_as_string: the
/// values of all properties named `name`, in order.
#[verifier::external_body]
pub(crate) fn vcard_get_all(c: &vobject::Component, name: &str) -> (r: Vec<String>)
    ensures
        crate::strutil::views_of(r@) == prop_values(*c, name@),
{
    c.get_all(name).iter().map(|p| p.value_as_string()).collect()
}

/// Relies on vobject::write_component: the serialized text of the component.
#[verifier::external_body]
pub(crate) fn vcard_write(c: &vobject::Component) -> (r: String)
    ensures
        r@ == vcard_text_of(*c),
{
    vobject::write_component(c)
}

/// What parsing a text yields, at the model level: parsing is a function of
/// the text alone, successful or not.
pub uninterp spec fn parse_model(s: Seq<char>) -> Option<(Seq<char>, Map<Seq<char>, Seq<Seq<char>>>)>;

/// Relies on vobject::parse_component: the outcome is a function of the text;
/// parsing the serialization of a line-safe component succeeds and recovers
/// its name and properties; a text that is no component's serialization may
/// fail.
#[verifier::external_body]
pub(crate) fn vcard_parse(s: &str) -> (r: Result<vobject::Component, String>)
    ensures
        r is Ok <==> parse_model(s@) is Some,
        r matches Ok(c) ==> parse_model(s@) == Some((comp_name(c), comp_props(c))),
        forall|c: vobject::Component|
            comp_line_safe(c) && s@ == #[trigger] vcard_text_of(c) ==> r is Ok && comp_name(
                r->Ok_0,
            ) == comp_name(c) && comp_props(r->Ok_0) == comp_props(c),
{
    match vobject::parse_component(s) {
        Ok(c) => Ok(c),
        Err(e) => Err(format!("{}", e)),
    }
}

} // verus!
