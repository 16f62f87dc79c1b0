//! The textual form of an interval over one coordinate space, and the
//! failure reported when one of its bounds is malformed.
use vstd::prelude::*;
use vstd::string::to_string_from_display_ensures;
use vstd::string::StrSliceExecFns;
use vstd::string::StringExecFns;
use core::num::ParseFloatError;

verus! {

/// Relies on core::num::ParseFloatError only as an opaque value: the
/// failure of the numeric parser, carried inside this module's error.
#[verifier::external_type_specification]
#[verifier::external_body]
pub struct ExParseFloatError(core::num::ParseFloatError);

/// A bound of an interval's textual form that is not a number.
#[derive(Debug)]
pub enum CoordinateRangeParseError {
    MalformedStart(ParseFloatError),
    MalformedEnd(ParseFloatError),
}

impl CoordinateRangeParseError {
    /// The side that failed, followed by the numeric parser's own message.
    pub fn to_string(&self) -> (r: String)
        ensures
            exists|t: String|
                {
                    &&& #[trigger] to_string_from_display_ensures::<ParseFloatError>(
                        self.float_error(),
                        t,
                    )
                    &&& r@ == self.prefix()@ + t@
                },
    {
        match self {
            CoordinateRangeParseError::MalformedStart(e) => {
                let detail = e.to_string();
                let r = String::from_str("Failed to parse range start ").concat(detail.as_str());
                assert(to_string_from_display_ensures::<ParseFloatError>(self.float_error(), detail));
                r
            },
            CoordinateRangeParseError::MalformedEnd(e) => {
                let detail = e.to_string();
                let r = String::from_str("Failed to parse range end ").concat(detail.as_str());
                assert(to_string_from_display_ensures::<ParseFloatError>(self.float_error(), detail));
                r
            },
        }
    }

    /// The numeric parser's failure carried by the error.
    pub open spec fn float_error(&self) -> &ParseFloatError {
        match self {
            CoordinateRangeParseError::MalformedStart(e) => e,
            CoordinateRangeParseError::MalformedEnd(e) => e,
        }
    }

    /// The text that names the failing side.
    pub open spec fn prefix(&self) -> &'static str {
        match self {
            CoordinateRangeParseError::MalformedStart(_) => "Failed to parse range start ",
            CoordinateRangeParseError::MalformedEnd(_) => "Failed to parse range end ",
        }
    }
}

/// The character that splits the textual form `s` of an interval: the first
/// of space, colon and hyphen that occurs in it, and space where none does.
pub open spec fn range_delimiter(s: Seq<char>) -> char {
    if s.contains(' ') {
        ' '
    } else if s.contains(':') {
        ':'
    } else if s.contains('-') {
        '-'
    } else {
        ' '
    }
}

/// `i` is the position of the first `c` in `s`.
pub open spec fn is_first_position(s: Seq<char>, c: char, i: int) -> bool {
    &&& 0 <= i < s.len()
    &&& s[i] == c
    &&& forall|j: int| 0 <= j < i ==> s[j] != c
}

/// The start and end tokens of the textual form `s` of an interval: what
/// stands before and after the first occurrence of its delimiter, or the
/// whole text and an empty end where the delimiter does not occur.
pub open spec fn range_text_tokens(s: Seq<char>) -> (Seq<char>, Seq<char>) {
    let d = range_delimiter(s);
    if s.contains(d) {
        let i = choose|i: int| is_first_position(s, d, i);
        (s.take(i), s.skip(i + 1))
    } else {
        (s, Seq::empty())
    }
}

/// A token that has to be parsed as a number; an empty one leaves its side
/// of the interval unbounded.
pub open spec fn bound_token(t: Seq<char>) -> Option<Seq<char>> {
    if t.len() == 0 {
        None
    } else {
        Some(t)
    }
}

/// The position of the first `c` in `s`, if any.
fn first_position(s: &str, n: usize, c: char) -> (r: Option<usize>)
    requires
        n == s@.len(),
    ensures
        match r {
            Some(i) => is_first_position(s@, c, i as int),
            None => !s@.contains(c),
        },
{
    let mut i: usize = 0;
    while i < n
        invariant
            n == s@.len(),
            i <= n,
            forall|j: int| 0 <= j < i ==> s@[j] != c,
        decreases n - i,
    {
        if s.get_char(i) == c {
            return Some(i);
        }
        i = i + 1;
    }
    None
}

/// Splits the textual form `s` of an interval into its start and end
/// tokens, each `None` where it is empty and so leaves that side unbounded.
pub fn split_range_text(s: &str) -> (r: (Option<String>, Option<String>))
    ensures
        r.0.deep_view() == bound_token(range_text_tokens(s@).0),
        r.1.deep_view() == bound_token(range_text_tokens(s@).1),
{
    let n = s.unicode_len();
    let found = match first_position(s, n, ' ') {
        Some(i) => Some(i),
        None => match first_position(s, n, ':') {
            Some(i) => Some(i),
            None => first_position(s, n, '-'),
        },
    };
    match found {
        Some(i) => {
            proof {
                let d = range_delimiter(s@);
                assert(is_first_position(s@, d, i as int));
                assert(s@.contains(d));
                let k = choose|k: int| is_first_position(s@, d, k);
                assert(k == i as int) by {
                    if k < i {
                        assert(s@[k] != d);
                    } else if k > i {
                        assert(s@[i as int] != d);
                    }
                }
            }
            let start = if i == 0 {
                None
            } else {
                Some(String::from_str(s.substring_char(0, i)))
            };
            let end = if i + 1 == n {
                None
            } else {
                Some(String::from_str(s.substring_char(i + 1, n)))
            };
            (start, end)
        },
        None => {
            proof {
                assert(!s@.contains(range_delimiter(s@)));
            }
            let start = if n == 0 {
                None
            } else {
                Some(String::from_str(s))
            };
            (start, None)
        },
    }
}

/// What a bound parsed to, where it parsed.
pub open spec fn parsed_value<V>(p: Option<Result<V, ParseFloatError>>) -> Option<V> {
    match p {
        Some(Ok(v)) => Some(v),
        _ => None,
    }
}

/// Puts together the outcomes of parsing the start and end tokens (`None`
/// for an absent token): the first side that failed is reported, the start
/// before the end; otherwise the bounds that were given.
pub fn range_bounds<V>(
    start: Option<Result<V, ParseFloatError>>,
    end: Option<Result<V, ParseFloatError>>,
) -> (r: Result<(Option<V>, Option<V>), CoordinateRangeParseError>)
    ensures
        match start {
            Some(Err(e)) => r == Err::<(Option<V>, Option<V>), _>(
                CoordinateRangeParseError::MalformedStart(e),
            ),
            _ => match end {
                Some(Err(e)) => r == Err::<(Option<V>, Option<V>), _>(
                    CoordinateRangeParseError::MalformedEnd(e),
                ),
                _ => r == Ok::<_, CoordinateRangeParseError>(
                    (parsed_value(start), parsed_value(end)),
                ),
            },
        },
{
    let start_value = match start {
        None => None,
        Some(Ok(v)) => Some(v),
        Some(Err(e)) => {
            return Err(CoordinateRangeParseError::MalformedStart(e));
        },
    };
    let end_value = match end {
        None => None,
        Some(Ok(v)) => Some(v),
        Some(Err(e)) => {
            return Err(CoordinateRangeParseError::MalformedEnd(e));
        },
    };
    Ok((start_value, end_value))
}

} // verus!
