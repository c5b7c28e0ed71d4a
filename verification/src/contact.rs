//! One contact: a vCard document and the path of the file that holds it.
//! Generation builds the document from a name, an address and an identifier;
//! rendering and re-parsing go through the vcard boundary.
use vstd::prelude::*;

use crate::error::MatesError;
use crate::strutil::views_of;
use crate::vcard::{
    comp_line_safe, comp_name, comp_props, no_props, parse_model, prop_value_safe, prop_values,
    single_prop_of, vcard_get_all, vcard_get_only, vcard_new, vcard_parse, vcard_push, vcard_text_of,
    vcard_write,
};

verus! {

pub struct Contact {
    pub component: vobject::Component,
    pub path: String,
}

/// The view of an optional borrowed string.
pub open spec fn opt_view(o: Option<&str>) -> Option<Seq<char>> {
    match o {
        Some(s) => Some(s@),
        None => None,
    }
}

/// The property map of a generated contact: an `FN` value if a full name was
/// given, an `EMAIL` value if an address was given, and the `UID`.
pub open spec fn generated_props(
    fullname: Option<Seq<char>>,
    email: Option<Seq<char>>,
    uid: Seq<char>,
) -> Map<Seq<char>, Seq<Seq<char>>> {
    let with_fn = if fullname is Some {
        no_props().insert("FN"@, seq![fullname->0])
    } else {
        no_props()
    };
    let with_email = if email is Some {
        with_fn.insert("EMAIL"@, seq![email->0])
    } else {
        with_fn
    };
    with_email.insert("UID"@, seq![uid])
}

/// The file path of a contact: the identifier with the vCard extension,
/// inside the contact directory.
pub fn vcf_path(dir: &str, uid: &str) -> (r: String)
    ensures
        r@ == dir@ + "/"@ + uid@ + ".vcf"@,
{
    let mut p = dir.to_owned();
    p.append("/");
    p.append(uid);
    p.append(".vcf");
    p
}

/// Relies on uuid::Uuid::new_v4 and its simple formatter: a fresh random
/// version-4 identifier rendered as 32 lowercase hexadecimal digits. The
/// value is random; nothing relates two calls.
#[verifier::external_body]
pub fn fresh_uid() -> (r: String)
    ensures
        r@.len() == 32,
        prop_value_safe(r@),
        forall|i: int|
            0 <= i < r@.len() ==> (('0' <= #[trigger] r@[i] && r@[i] <= '9') || ('a' <= r@[i]
                && r@[i] <= 'f')),
{
    uuid::Uuid::new_v4().simple().to_string()
}

impl Contact {
    /// A document that serializes and parses back to the same name and
    /// properties.
    pub open spec fn wf(self) -> bool {
        comp_line_safe(self.component)
    }

    /// Build an in-memory contact: a `VCARD` document holding the given full
    /// name and email address where present, and the identifier, stored at
    /// `<dir>/<uid>.vcf`. Performs no filesystem work.
    pub fn generate(fullname: Option<&str>, email: Option<&str>, dir: &str, uid: String) -> (c:
        Contact)
        requires
            (fullname matches Some(x) ==> prop_value_safe(x@)),
            (email matches Some(x) ==> prop_value_safe(x@)),
            prop_value_safe(uid@),
        ensures
            c.wf(),
            comp_name(c.component) == "VCARD"@,
            comp_props(c.component) == generated_props(opt_view(fullname), opt_view(email), uid@),
            c.path@ == dir@ + "/"@ + uid@ + ".vcf"@,
    {
        proof {
            reveal_strlit("VCARD");
            reveal_strlit("FN");
            reveal_strlit("EMAIL");
            reveal_strlit("UID");
            reveal_strlit("BEGIN");
            reveal_strlit("END");
            assert("FN"@.len() == 2 && "EMAIL"@.len() == 5 && "UID"@.len() == 3);
            assert("BEGIN"@.len() == 5 && "END"@.len() == 3);
            assert("EMAIL"@[0] != "BEGIN"@[0] && "UID"@[0] != "END"@[0]);
        }
        let mut comp = vcard_new("VCARD");
        match fullname {
            Some(x) => vcard_push(&mut comp, "FN", x),
            None => (),
        }
        match email {
            Some(x) => vcard_push(&mut comp, "EMAIL", x),
            None => (),
        }
        vcard_push(&mut comp, "UID", uid.as_str());
        assert(comp_props(comp) =~~= generated_props(opt_view(fullname), opt_view(email), uid@));
        let path = vcf_path(dir, uid.as_str());
        Contact { component: comp, path }
    }

    /// Parse the text of a contact file. On failure nothing of the contact
    /// is kept; what is parsed is a function of the text; and the text of any
    /// line-safe component parses back to that component's name and
    /// properties.
    pub fn from_vcard_text(path: String, text: &str) -> (r: Result<Contact, MatesError>)
        ensures
            r is Ok <==> parse_model(text@) is Some,
            r matches Ok(c) ==> parse_model(text@) == Some(
                (comp_name(c.component), comp_props(c.component)),
            ),
            forall|c0: vobject::Component|
                comp_line_safe(c0) && text@ == #[trigger] vcard_text_of(c0) ==> r is Ok
                    && comp_name(r->Ok_0.component) == comp_name(c0) && comp_props(
                    r->Ok_0.component,
                ) == comp_props(c0),
            r matches Ok(c) ==> c.path == path,
            r matches Err(e) ==> e is Parse,
    {
        match vcard_parse(text) {
            Ok(component) => Ok(Contact { component, path }),
            Err(m) => Err(MatesError::Parse(m)),
        }
    }

    /// Serialize the contact's document.
    pub fn render(&self) -> (r: String)
        ensures
            r@ == vcard_text_of(self.component),
    {
        vcard_write(&self.component)
    }

    /// The value of the property `name`, when exactly one is present.
    pub fn single_prop(&self, name: &str) -> (r: Option<String>)
        ensures
            match r {
                Some(v) => single_prop_of(self.component, name@) == Some(v@),
                None => single_prop_of(self.component, name@) is None,
            },
    {
        vcard_get_only(&self.component, name)
    }

    /// The values of all properties named `name`, in order.
    pub fn all_props(&self, name: &str) -> (r: Vec<String>)
        ensures
            views_of(r@) == prop_values(self.component, name@),
    {
        vcard_get_all(&self.component, name)
    }

    /// Round trip: serializing a well-formed contact and parsing the text
    /// back yields a contact with the same name and the same properties at
    /// the same path.
    pub fn reparse(&self) -> (r: Result<Contact, MatesError>)
        requires
            self.wf(),
        ensures
            r is Ok,
            comp_name(r->Ok_0.component) == comp_name(self.component),
            comp_props(r->Ok_0.component) == comp_props(self.component),
            r->Ok_0.path == self.path,
    {
        let text = self.render();
        Contact::from_vcard_text(self.path.clone(), text.as_str())
    }
}

} // verus!
