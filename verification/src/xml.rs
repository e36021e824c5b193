//! XML documents as streams of events, read through the `quick-xml` crate,
//! and the count that the metadata of an office document holds.

use vstd::prelude::*;
use vstd::string::StringExecFns;
use quick_xml::events::Event;
use crate::scanner::matches_pattern;
use crate::schema::{ErrorView, EstimatorError};

verus! {

/// `quick_xml::Reader`, a reader of events. Nothing of its inside is known here.
#[verifier::external_type_specification]
#[verifier::external_body]
#[verifier::reject_recursive_types(R)]
pub struct ExReader<R>(quick_xml::Reader<R>);

/// One event of an XML document, with what the estimators read of it.
#[derive(Debug)]
pub enum XmlEvent {
    /// An element opens: its name.
    Open(Vec<u8>),
    /// An element stands empty: its name.
    Empty(Vec<u8>),
    /// An element closes: its name.
    Close(Vec<u8>),
    /// Text: unescaped, or the error of unescaping in its `Debug` form.
    Text(Result<String, String>),
    /// A comment, a declaration or the like.
    Other,
    /// The document has ended.
    Eof,
    /// The document is not well-formed here: the error in its `Debug` form.
    Failed(String),
}

/// An event as a mathematical value.
pub enum XmlItem {
    Open(Seq<u8>),
    Empty(Seq<u8>),
    Close(Seq<u8>),
    Text(Result<Seq<char>, Seq<char>>),
    Other,
    Eof,
    Failed(Seq<char>),
}

impl View for XmlEvent {
    type V = XmlItem;

    open spec fn view(&self) -> XmlItem {
        match self {
            XmlEvent::Open(name) => XmlItem::Open(name@),
            XmlEvent::Empty(name) => XmlItem::Empty(name@),
            XmlEvent::Close(name) => XmlItem::Close(name@),
            XmlEvent::Text(Ok(text)) => XmlItem::Text(Ok(text@)),
            XmlEvent::Text(Err(error)) => XmlItem::Text(Err(error@)),
            XmlEvent::Other => XmlItem::Other,
            XmlEvent::Eof => XmlItem::Eof,
            XmlEvent::Failed(error) => XmlItem::Failed(error@),
        }
    }
}

/// The events that a reader has yet to give. The last of them is the end of
/// the document or the first failure.
pub uninterp spec fn pending(reader: quick_xml::Reader<&[u8]>) -> Seq<XmlItem>;

/// The events of the document `text`, read with text trimmed, up to its end
/// or its first failure.
pub uninterp spec fn xml_events(text: Seq<char>) -> Seq<XmlItem>;

/// The error with which `str::parse::<usize>` refuses `text`, in its `Debug`
/// form.
pub uninterp spec fn parse_error(text: Seq<char>) -> Seq<char>;

/// The number that decimal digits denote, the digits given as characters.
pub open spec fn digits_value(digits: Seq<char>) -> nat
    decreases digits.len(),
{
    if digits.len() == 0 {
        0
    } else {
        digits_value(digits.drop_last()) * 10 + (digits.last() as u32 - '0' as u32) as nat
    }
}

/// The number that `text` denotes as an unsigned integer: an optional plus
/// sign, then decimal digits, at least one, and nothing else; none where the
/// text is anything else.
pub open spec fn unsigned_of(text: Seq<char>) -> Option<nat> {
    let digits = if text.len() > 0 && text[0] == '+' {
        text.subrange(1, text.len() as int)
    } else {
        text
    };
    if digits.len() > 0 && forall|i: int|
        0 <= i < digits.len() ==> '0' <= #[trigger] digits[i] <= '9' {
        Some(digits_value(digits))
    } else {
        None
    }
}

/// What parsing `text` as a `usize` gives: the number it denotes where it
/// denotes one that fits the type, else the error.
pub open spec fn parsed_usize(text: Seq<char>) -> Result<usize, Seq<char>> {
    match unsigned_of(text) {
        Some(n) => if n <= usize::MAX {
            Ok(n as usize)
        } else {
            Err(parse_error(text))
        },
        None => Err(parse_error(text)),
    }
}

/// Makes a reader over `text` with `quick_xml::Reader::from_str` and sets it
/// to trim text with `Config::trim_text`. The contract claims that the
/// events to come are a function of the text, and that there is at least one.
#[verifier::external_body]
pub(crate) fn new_reader(text: &str) -> (r: quick_xml::Reader<&[u8]>)
    ensures
        pending(r) == xml_events(text@),
        pending(r).len() > 0,
{
    let mut reader = quick_xml::Reader::from_str(text);
    reader.config_mut().trim_text(true);
    reader
}

/// Reads the next event with `quick_xml::Reader::read_event_into` and keeps of
/// it what `XmlEvent` holds, variant for variant: a name by `BytesStart::name`
/// or `BytesEnd::name`,
/// a text by `BytesText::unescape`. The contract claims that the event is the
/// first of those pending and that, unless it is the end or a failure, the
/// others stay pending and are at least one.
#[verifier::external_body]
pub(crate) fn next_event(reader: &mut quick_xml::Reader<&[u8]>) -> (r: XmlEvent)
    requires
        pending(*old(reader)).len() > 0,
    ensures
        r@ == pending(*old(reader))[0],
        !(r is Eof || r is Failed) ==> pending(*final(reader)) == pending(
            *old(reader),
        ).drop_first() && pending(*final(reader)).len() > 0,
{
    let mut buf = Vec::new();
    match reader.read_event_into(&mut buf) {
        Ok(Event::Start(e)) => XmlEvent::Open(e.name().as_ref().to_vec()),
        Ok(Event::Empty(e)) => XmlEvent::Empty(e.name().as_ref().to_vec()),
        Ok(Event::End(e)) => XmlEvent::Close(e.name().as_ref().to_vec()),
        Ok(Event::Text(e)) => XmlEvent::Text(
            e.unescape().map(|text| text.into_owned()).map_err(|error| format!("{:?}", error)),
        ),
        Ok(Event::Eof) => XmlEvent::Eof,
        Ok(_) => XmlEvent::Other,
        Err(error) => XmlEvent::Failed(format!("{:?}", error)),
    }
}

/// Parses `text` with `str::parse::<usize>`. The contract claims what the
/// documentation of that function says: the text is accepted where it is an
/// optional plus sign followed by decimal digits only, at least one, that
/// denote a number which fits the type, and then that number is returned;
/// everything else is an error. Of the error the contract only names the
/// `Debug` form.
#[verifier::external_body]
pub(crate) fn parse_usize(text: &str) -> (r: Result<usize, String>)
    ensures
        match r {
            Ok(n) => unsigned_of(text@) == Some(n as nat),
            Err(error) => error@ == parse_error(text@) && (unsigned_of(text@) matches Some(n) ==> n
                > usize::MAX),
        },
{
    text.parse::<usize>().map_err(|error| format!("{:?}", error))
}

/// The message of a count that is no number.
pub open spec fn unparsed_message(what: Seq<char>, error: Seq<char>) -> Seq<char> {
    "Failed to parse "@ + what + " count: "@ + error
}

/// The message of metadata that hold no count.
pub open spec fn missing_message(what: Seq<char>) -> Seq<char> {
    "No "@ + what + " count found in app.xml"@
}

/// What the text inside the counted element gives: the number it holds, or
/// the reason why it holds none.
pub open spec fn count_of_text(content: Result<Seq<char>, Seq<char>>, what: Seq<char>) -> Result<
    usize,
    ErrorView,
> {
    match content {
        Ok(text) => match parsed_usize(text) {
            Ok(n) => Ok(n),
            Err(error) => Err(ErrorView::General(unparsed_message(what, error))),
        },
        Err(error) => Err(ErrorView::General("XML unescape error: "@ + error)),
    }
}

/// The count that a stream of events holds: the outcome of the first step
/// that ends the search. `inside` tells whether an element named `tag` is
/// open where the stream starts, and `what` names the thing counted in the
/// messages.
pub open spec fn count_in_events(
    events: Seq<XmlItem>,
    tag: Seq<u8>,
    inside: bool,
    what: Seq<char>,
) -> Result<usize, ErrorView>
    decreases events.len(),
{
    if events.len() == 0 {
        Err(ErrorView::General(missing_message(what)))
    } else {
        match step_of(events[0], tag, inside, what) {
            StepView::On(flag) => count_in_events(events.drop_first(), tag, flag, what),
            StepView::Done(outcome) => outcome,
        }
    }
}

/// The view of a count, or of the error that came instead.
pub open spec fn count_view(count: Result<usize, EstimatorError>) -> Result<usize, ErrorView> {
    match count {
        Ok(n) => Ok(n),
        Err(error) => Err(error@),
    }
}

/// Whether a name is the tag looked for.
fn is_tag(name: &Vec<u8>, tag: &[u8]) -> (r: bool)
    ensures
        r == (name@ == tag@),
{
    let r = name.len() == tag.len() && matches_pattern(name.as_slice(), 0, tag);
    proof {
        if r {
            assert(name@ =~= tag@);
        }
    }
    r
}

/// The number that the text inside the counted element holds.
pub fn count_from_text(content: Result<String, String>, what: &str) -> (r: Result<
    usize,
    EstimatorError,
>)
    ensures
        count_view(r) == count_of_text(
            match content {
                Ok(text) => Ok(text@),
                Err(error) => Err(error@),
            },
            what@,
        ),
{
    match content {
        Ok(text) => match parse_usize(text.as_str()) {
            Ok(n) => Ok(n),
            Err(error) => {
                let message = "Failed to parse ".to_owned().concat(what).concat(" count: ").concat(
                    error.as_str(),
                );
                Err(EstimatorError::General(message))
            },
        },
        Err(error) => Err(
            EstimatorError::General("XML unescape error: ".to_owned().concat(error.as_str())),
        ),
    }
}

/// What one event does to the search for the count.
#[derive(Debug)]
pub enum Step {
    /// The search goes on; the flag tells whether the counted element is open.
    On(bool),
    /// The search has ended with this outcome.
    Done(Result<usize, EstimatorError>),
}

/// A step as a mathematical value.
pub enum StepView {
    On(bool),
    Done(Result<usize, ErrorView>),
}

impl View for Step {
    type V = StepView;

    open spec fn view(&self) -> StepView {
        match self {
            Step::On(inside) => StepView::On(*inside),
            Step::Done(outcome) => StepView::Done(count_view(*outcome)),
        }
    }
}

/// What the event `event` does to the search: an element named `tag` that
/// opens or closes sets the flag, and one that stands empty sets it as one
/// that opens does, for no closing follows it; a text inside the element ends
/// the search with the number it holds, the end of the document and a failure
/// end it with their error, and anything else leaves it as it is.
pub open spec fn step_of(event: XmlItem, tag: Seq<u8>, inside: bool, what: Seq<char>) -> StepView {
    match event {
        XmlItem::Open(name) => StepView::On(inside || name == tag),
        XmlItem::Empty(name) => StepView::On(inside || name == tag),
        XmlItem::Close(name) => StepView::On(inside && name != tag),
        XmlItem::Text(content) => if inside {
            StepView::Done(count_of_text(content, what))
        } else {
            StepView::On(inside)
        },
        XmlItem::Other => StepView::On(inside),
        XmlItem::Eof => StepView::Done(Err(ErrorView::General(missing_message(what)))),
        XmlItem::Failed(error) => StepView::Done(
            Err(ErrorView::General("XML parse error: "@ + error)),
        ),
    }
}

/// Takes one step of the search for the count.
pub fn advance(event: XmlEvent, tag: &[u8], inside: bool, what: &str) -> (r: Step)
    ensures
        r@ == step_of(event@, tag@, inside, what@),
{
    match event {
        XmlEvent::Open(name) => Step::On(inside || is_tag(&name, tag)),
        XmlEvent::Empty(name) => Step::On(inside || is_tag(&name, tag)),
        XmlEvent::Close(name) => Step::On(inside && !is_tag(&name, tag)),
        XmlEvent::Text(content) => {
            if inside {
                Step::Done(count_from_text(content, what))
            } else {
                Step::On(inside)
            }
        },
        XmlEvent::Other => Step::On(inside),
        XmlEvent::Eof => {
            let message = "No ".to_owned().concat(what).concat(" count found in app.xml");
            Step::Done(Err(EstimatorError::General(message)))
        },
        XmlEvent::Failed(error) => Step::Done(
            Err(EstimatorError::General("XML parse error: ".to_owned().concat(error.as_str()))),
        ),
    }
}

/// The count in the metadata `xml`: the number in the first text inside an
/// element named `tag`. A document that is not well-formed before that text,
/// a text that is no number, and a document without such a text each give
/// their error.
pub fn count_in_metadata(xml: &str, tag: &[u8], what: &str) -> (r: Result<usize, EstimatorError>)
    ensures
        count_view(r) == count_in_events(xml_events(xml@), tag@, false, what@),
{
    let mut reader = new_reader(xml);
    let mut inside: bool = false;
    loop
        invariant
            pending(reader).len() > 0,
            count_in_events(xml_events(xml@), tag@, false, what@) == count_in_events(
                pending(reader),
                tag@,
                inside,
                what@,
            ),
        decreases pending(reader).len(),
    {
        match advance(next_event(&mut reader), tag, inside, what) {
            Step::On(flag) => { inside = flag; },
            Step::Done(outcome) => { return outcome; },
        }
    }
}

} // verus!
