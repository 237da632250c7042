//! What layout is told about the elements behind its boxes: who created an
//! element, where markup is inserted next to it, and what a box's content is
//! generated from.

use vstd::prelude::*;
use vstd::string::*;

verus! {

/// Who created an element: the parser, at a line of the source, or a script.
#[derive(PartialEq, Eq, Structural)]
pub enum ElementCreator {
    ParserCreated(u64),
    ScriptCreated,
}

/// Whether a custom element is upgraded at once or later.
pub enum CustomElementCreationMode {
    Synchronous,
    Asynchronous,
}

impl ElementCreator {
    /// Whether the parser created the element.
    pub fn is_parser_created(&self) -> (r: bool)
        ensures
            r == (*self is ParserCreated),
    {
        match *self {
            ElementCreator::ParserCreated(_) => true,
            ElementCreator::ScriptCreated => false,
        }
    }

    /// The line that the element is reported at: the parser's line, and line
    /// 1 for an element that a script created.
    pub fn return_line_number(&self) -> (line: u64)
        ensures
            line == match *self {
                ElementCreator::ParserCreated(l) => l,
                ElementCreator::ScriptCreated => 1,
            },
    {
        match *self {
            ElementCreator::ParserCreated(l) => l,
            ElementCreator::ScriptCreated => 1,
        }
    }
}

/// Where, relative to an element, adjacent content is inserted.
#[derive(Clone, Copy, Debug, PartialEq, Eq, Structural)]
pub enum AdjacentPosition {
    BeforeBegin,
    AfterEnd,
    AfterBegin,
    BeforeEnd,
}

/// Why a position keyword was refused.
#[derive(Clone, Copy, Debug, PartialEq, Eq, Structural)]
pub enum PositionError {
    Syntax,
}

/// The code point that a character counts as when ASCII case is ignored:
/// an upper-case ASCII letter counts as its lower-case form.
pub open spec fn ascii_folded(c: char) -> int {
    if 'A' <= c && c <= 'Z' {
        c as int + 32
    } else {
        c as int
    }
}

/// Whether two texts are equal up to the case of their ASCII letters.
pub open spec fn eq_ignoring_ascii_case(a: Seq<char>, b: Seq<char>) -> bool {
    &&& a.len() == b.len()
    &&& forall|i: int| 0 <= i < a.len() ==> ascii_folded(#[trigger] a[i]) == ascii_folded(b[i])
}

/// The position that a keyword names, if it names one.
pub open spec fn position_named(keyword: Seq<char>) -> Option<AdjacentPosition> {
    if eq_ignoring_ascii_case(keyword, "beforebegin"@) {
        Some(AdjacentPosition::BeforeBegin)
    } else if eq_ignoring_ascii_case(keyword, "afterbegin"@) {
        Some(AdjacentPosition::AfterBegin)
    } else if eq_ignoring_ascii_case(keyword, "beforeend"@) {
        Some(AdjacentPosition::BeforeEnd)
    } else if eq_ignoring_ascii_case(keyword, "afterend"@) {
        Some(AdjacentPosition::AfterEnd)
    } else {
        None
    }
}

fn fold_ascii(c: char) -> (folded: u32)
    ensures
        folded == ascii_folded(c),
{
    if 'A' <= c && c <= 'Z' {
        c as u32 + 32
    } else {
        c as u32
    }
}

/// Compares two texts, ignoring the case of ASCII letters.
pub fn eq_ignore_ascii_case(a: &str, b: &str) -> (same: bool)
    ensures
        same == eq_ignoring_ascii_case(a@, b@),
{
    let n = a.unicode_len();
    if n != b.unicode_len() {
        return false;
    }
    let mut i: usize = 0;
    while i < n
        invariant
            i <= n,
            n == a@.len(),
            n == b@.len(),
            forall|k: int| 0 <= k < i ==> ascii_folded(#[trigger] a@[k]) == ascii_folded(b@[k]),
        decreases n - i,
    {
        if fold_ascii(a.get_char(i)) != fold_ascii(b.get_char(i)) {
            return false;
        }
        i += 1;
    }
    true
}

impl AdjacentPosition {
    /// Reads a position keyword: `beforebegin`, `afterbegin`, `beforeend` or
    /// `afterend`, in any ASCII case. Anything else is a syntax error.
    pub fn from_str(position: &str) -> (r: Result<AdjacentPosition, PositionError>)
        ensures
            r == match position_named(position@) {
                Some(p) => Ok::<AdjacentPosition, PositionError>(p),
                None => Err(PositionError::Syntax),
            },
    {
        if eq_ignore_ascii_case(position, "beforebegin") {
            Ok(AdjacentPosition::BeforeBegin)
        } else if eq_ignore_ascii_case(position, "afterbegin") {
            Ok(AdjacentPosition::AfterBegin)
        } else if eq_ignore_ascii_case(position, "beforeend") {
            Ok(AdjacentPosition::BeforeEnd)
        } else if eq_ignore_ascii_case(position, "afterend") {
            Ok(AdjacentPosition::AfterEnd)
        } else {
            Err(PositionError::Syntax)
        }
    }
}

/// Which generated pseudo-element of an element.
#[derive(Clone, Copy, Debug, PartialEq, Eq, Structural)]
pub enum WhichPseudoElement {
    Before,
    After,
}

/// What kind of replaced content a box shows.
#[derive(Clone, Copy, Debug, PartialEq, Eq, Structural)]
pub enum ReplacedContentKind {
    Image,
    IFrame,
    Canvas,
}

/// The sizes that replaced content brings with it, in app units.
#[derive(Clone, Copy, Debug, PartialEq, Eq, Structural)]
pub struct IntrinsicSizes {
    pub width: Option<i32>,
    pub height: Option<i32>,
}

/// Content that is laid out as one opaque box, such as an image.
#[derive(Clone, Copy, Debug, PartialEq, Eq, Structural)]
pub struct ReplacedContent {
    pub kind: ReplacedContentKind,
    pub intrinsic: IntrinsicSizes,
}

/// One piece of what a `::before` or `::after` pseudo-element generates.
pub enum PseudoElementContentItem {
    Text(String),
    Replaced(ReplacedContent),
}

/// What a box's content is generated from.
pub enum Contents {
    /// A subtree of the document, with its `::before` and `::after`.
    OfElement,
    /// Replaced content, such as an image.
    Replaced(ReplacedContent),
    /// What a `::before` or `::after` pseudo-element generates.
    OfPseudoElement(Vec<PseudoElementContentItem>),
}

/// Content that is not replaced.
pub enum NonReplacedContents {
    OfElement,
    OfPseudoElement(Vec<PseudoElementContentItem>),
}

impl Contents {
    /// Whether the content is replaced; exactly then
    /// `NonReplacedContents::try_from` fails.
    pub fn is_replaced(&self) -> (r: bool)
        ensures
            r == (*self is Replaced),
    {
        match self {
            Contents::OfElement | Contents::OfPseudoElement(_) => false,
            Contents::Replaced(_) => true,
        }
    }
}

/// Non-replaced content as content of any kind.
pub open spec fn as_contents(contents: NonReplacedContents) -> Contents {
    match contents {
        NonReplacedContents::OfElement => Contents::OfElement,
        NonReplacedContents::OfPseudoElement(items) => Contents::OfPseudoElement(items),
    }
}

impl NonReplacedContents {
    /// The content as non-replaced content, or the replaced content that it
    /// is: it fails exactly for replaced content.
    pub fn try_from(contents: Contents) -> (r: Result<NonReplacedContents, ReplacedContent>)
        ensures
            r == match contents {
                Contents::OfElement => Ok::<NonReplacedContents, ReplacedContent>(
                    NonReplacedContents::OfElement,
                ),
                Contents::OfPseudoElement(items) => Ok(NonReplacedContents::OfPseudoElement(items)),
                Contents::Replaced(replaced) => Err(replaced),
            },
            r is Err <==> contents is Replaced,
            r is Ok ==> as_contents(r->Ok_0) == contents,
    {
        match contents {
            Contents::OfElement => Ok(NonReplacedContents::OfElement),
            Contents::OfPseudoElement(items) => Ok(NonReplacedContents::OfPseudoElement(items)),
            Contents::Replaced(replaced) => Err(replaced),
        }
    }
}

impl From<NonReplacedContents> for Contents {
    fn from(contents: NonReplacedContents) -> (c: Contents) {
        match contents {
            NonReplacedContents::OfElement => Contents::OfElement,
            NonReplacedContents::OfPseudoElement(items) => Contents::OfPseudoElement(items),
        }
    }
}

impl vstd::std_specs::convert::FromSpecImpl<NonReplacedContents> for Contents {
    open spec fn obeys_from_spec() -> bool {
        true
    }

    open spec fn from_spec(contents: NonReplacedContents) -> Contents {
        as_contents(contents)
    }
}

} // verus!
