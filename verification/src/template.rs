//! Rendering text through the liquid template engine. The engine is an
//! external collaborator: what it produces for a template and a flat
//! key-to-string data object is given a name, and everything around the
//! calls is verified against that name. Templates that would drive the
//! engine's integer-literal parser past its range are rejected before the
//! engine ever sees them.

use vstd::prelude::*;
use crate::error::Error;

verus! {

/// What the liquid engine produces for a template text and a flat
/// key-to-string data mapping: the rendered text, or the engine's error
/// message. The engine is built with no filters, tags or blocks registered,
/// so rendering is a function of these two arguments alone: a template that
/// names a filter or tag fails at parse time, and referencing a placeholder
/// that the data does not define is an error, never a silent empty
/// substitution.
pub uninterp spec fn liquid_output(template: Seq<char>, data: Map<Seq<char>, Seq<char>>) -> Result<
    Seq<char>,
    Seq<char>,
>;

/// An ASCII decimal digit.
pub open spec fn is_ascii_digit(c: char) -> bool {
    ('0' as u32) <= (c as u32) && (c as u32) <= ('9' as u32)
}

/// Whether `s`, entered with `run` digits already read in a row, somewhere
/// reaches an unbroken run of 19 ASCII digits.
pub open spec fn digit_run_reaches(s: Seq<char>, run: nat) -> bool
    decreases s.len(),
{
    if run >= 19 {
        true
    } else if s.len() == 0 {
        false
    } else if is_ascii_digit(s[0]) {
        digit_run_reaches(s.skip(1), run + 1)
    } else {
        digit_run_reaches(s.skip(1), 0)
    }
}

/// Whether `s` holds an unbroken run of 19 or more ASCII digits. The
/// engine's grammar reads any such run as one integer literal, and a
/// literal of 19 digits can exceed the engine's integer range, on which its
/// parser does not return; every run of at most 18 digits fits. Templates
/// are screened with this predicate before they reach the engine.
pub open spec fn has_long_digit_run(s: Seq<char>) -> bool {
    digit_run_reaches(s, 0)
}

/// The error text a template with an over-long digit run is rejected with.
pub const OVERSIZED_LITERAL_MESSAGE: &'static str = "template holds a run of 19 or more digits, beyond the engine's integer literals";

/// What rendering a template against a data mapping yields: a template with
/// an over-long digit run is rejected outright; any other template is the
/// engine's own outcome.
pub open spec fn template_output(template: Seq<char>, data: Map<Seq<char>, Seq<char>>) -> Result<
    Seq<char>,
    Seq<char>,
> {
    if has_long_digit_run(template) {
        Err(OVERSIZED_LITERAL_MESSAGE@)
    } else {
        liquid_output(template, data)
    }
}

/// A flat key-to-string data object handed to the template engine.
#[verifier::external_body]
pub struct TemplateData {
    object: liquid::Object,
}

/// The entries a data object holds.
pub uninterp spec fn data_entries(d: TemplateData) -> Map<Seq<char>, Seq<char>>;

/// Relies on liquid::Object::new: a freshly created object holds no entries.
#[verifier::external_body]
fn data_new() -> (d: TemplateData)
    ensures
        (data_entries(d) == Map::<Seq<char>, Seq<char>>::empty()),
{
    TemplateData { object: liquid::Object::new() }
}

/// Relies on liquid::Object::insert: inserting binds the key to the value,
/// replacing any earlier binding of that key.
#[verifier::external_body]
fn data_insert(d: &mut TemplateData, key: &str, value: &str)
    ensures
        data_entries(*final(d)) == data_entries(*old(d)).insert(key@, value@),
{
    d.object.insert(
        liquid::model::KString::from_ref(key),
        liquid::model::Value::scalar(value.to_owned()),
    );
}

/// Relies on liquid::Parser::parse and liquid::Template::render, with the
/// empty parser that liquid::ParserBuilder::new builds. With no filters,
/// tags or blocks registered, nothing in parsing or rendering can reach the
/// clock, the environment or any other ambient state, so the outcome is a
/// function of the template text and the data entries alone. The engine's
/// grammar reads an unbroken digit run as one integer literal and does not
/// return on one beyond its integer range, so such templates are left out
/// here and screened by the caller.
#[verifier::external_body]
fn render_liquid(template: &str, data: &TemplateData) -> (r: Result<String, String>)
    requires
        !has_long_digit_run(template@),
    ensures
        r is Ok <==> liquid_output(template@, data_entries(*data)) is Ok,
        r is Ok ==> r->Ok_0@ == liquid_output(template@, data_entries(*data))->Ok_0,
        r is Err ==> r->Err_0@ == liquid_output(template@, data_entries(*data))->Err_0,
{
    let parser = match liquid::ParserBuilder::new().build() {
        Ok(p) => p,
        Err(e) => return Err(e.to_string()),
    };
    let tmpl = match parser.parse(template) {
        Ok(t) => t,
        Err(e) => return Err(e.to_string()),
    };
    match tmpl.render(&data.object) {
        Ok(s) => Ok(s),
        Err(e) => Err(e.to_string()),
    }
}

/// Decides `digit_run_reaches`: scans `s` with `run` digits already read in
/// a row.
fn scan_digit_run(s: &str, run: u64) -> (r: bool)
    requires
        run <= 19,
    ensures
        r == digit_run_reaches(s@, run as nat),
    decreases s@.len(),
{
    if run >= 19 {
        true
    } else {
        let len = s.unicode_len();
        if len == 0 {
            false
        } else {
            let c = s.get_char(0);
            let rest = s.substring_char(1, len);
            proof {
                assert(rest@ =~= s@.skip(1));
            }
            let code = c as u32;
            if 48 <= code && code <= 57 {
                scan_digit_run(rest, run + 1)
            } else {
                scan_digit_run(rest, 0)
            }
        }
    }
}

/// The data mapping that a sequence of key-value pairs denotes; a later
/// binding of a key replaces an earlier one.
pub open spec fn pairs_map(pairs: Seq<(String, String)>) -> Map<Seq<char>, Seq<char>>
    decreases pairs.len(),
{
    if pairs.len() == 0 {
        Map::empty()
    } else {
        pairs_map(pairs.drop_last()).insert(pairs.last().0@, pairs.last().1@)
    }
}

/// Renders a template against the data mapping the pairs denote. A failure
/// is a `RenderError` carrying the message `template_output` gives, and
/// produces no output text at all.
pub fn render_template(template: &str, pairs: &Vec<(String, String)>) -> (r: Result<String, Error>)
    ensures
        r is Ok <==> template_output(template@, pairs_map(pairs@)) is Ok,
        r is Ok ==> r->Ok_0@ == template_output(template@, pairs_map(pairs@))->Ok_0,
        r is Err ==> (r->Err_0 matches Error::RenderError { message } && message@
            == template_output(template@, pairs_map(pairs@))->Err_0),
{
    if scan_digit_run(template, 0) {
        return Err(Error::RenderError { message: OVERSIZED_LITERAL_MESSAGE.to_owned() });
    }
    let mut data = data_new();
    let mut i: usize = 0;
    while i < pairs.len()
        invariant
            i <= pairs.len(),
            data_entries(data) == pairs_map(pairs@.take(i as int)),
        decreases pairs.len() - i,
    {
        let pair = &pairs[i];
        data_insert(&mut data, pair.0.as_str(), pair.1.as_str());
        proof {
            assert(pairs@.take(i as int + 1).drop_last() =~= pairs@.take(i as int));
            assert(pairs@.take(i as int + 1).last() == pairs@[i as int]);
        }
        i += 1;
    }
    proof {
        assert(pairs@.take(pairs@.len() as int) =~= pairs@);
    }
    match render_liquid(template, &data) {
        Ok(s) => Ok(s),
        Err(m) => Err(Error::RenderError { message: m }),
    }
}

} // verus!
