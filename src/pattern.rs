//! The four text patterns of the extractor, compiled with the `regex` crate,
//! and what each of them finds, stated as spec functions over characters.
use vstd::prelude::*;
use vstd::string::StringExecFns;

verus! {

#[verifier::external_type_specification]
#[verifier::external_body]
pub struct ExRegex(regex::Regex);

/// A field that an [`Extractor`] captures: the digit run of the first group.
#[derive(Clone, Copy, Debug, PartialEq, Eq, Structural)]
pub enum Field {
    /// `traceId:`, optional blanks, digits.
    TraceId,
    /// `status`, non-digits ending in a quote, digits, a closing quote.
    Status,
    /// `retCode`, non-digits, digits.
    RetCode,
}

pub open spec fn trace_key() -> Seq<char> {
    seq!['t', 'r', 'a', 'c', 'e', 'I', 'd', ':']
}

pub open spec fn status_key() -> Seq<char> {
    seq!['s', 't', 'a', 't', 'u', 's']
}

pub open spec fn ret_code_key() -> Seq<char> {
    seq!['r', 'e', 't', 'C', 'o', 'd', 'e']
}

/// `w` stands in `s` at position `i`.
pub open spec fn occurs_at(s: Seq<char>, w: Seq<char>, i: int) -> bool {
    0 <= i && i + w.len() <= s.len() && s.subrange(i, i + w.len()) == w
}

/// `w` stands somewhere in `s`.
pub open spec fn contains_word(s: Seq<char>, w: Seq<char>) -> bool {
    exists|i: int| #[trigger] occurs_at(s, w, i)
}

pub open spec fn is_digit(c: char) -> bool {
    '0' <= c && c <= '9'
}

/// The optional whitespace after `traceId:`; see [`field_source`].
pub open spec fn is_blank(c: char) -> bool {
    c == ' ' || c == '\t'
}

/// The end of the run of digits that starts at `k`.
pub open spec fn digits_end(s: Seq<char>, k: int) -> int
    decreases s.len() - k,
{
    if 0 <= k < s.len() && is_digit(s[k]) {
        digits_end(s, k + 1)
    } else {
        k
    }
}

/// The first position at or after `k` that holds a digit, or the length.
pub open spec fn next_digit(s: Seq<char>, k: int) -> int
    decreases s.len() - k,
{
    if 0 <= k < s.len() && !is_digit(s[k]) {
        next_digit(s, k + 1)
    } else {
        k
    }
}

/// The end of the run of blanks that starts at `k`.
pub open spec fn blanks_end(s: Seq<char>, k: int) -> int
    decreases s.len() - k,
{
    if 0 <= k < s.len() && is_blank(s[k]) {
        blanks_end(s, k + 1)
    } else {
        k
    }
}

/// What the pattern of `field` captures in a match that starts at `i`.
pub open spec fn capture_at(field: Field, s: Seq<char>, i: int) -> Option<Seq<char>> {
    match field {
        Field::TraceId => {
            if occurs_at(s, trace_key(), i) {
                let w = blanks_end(s, i + trace_key().len());
                let e = digits_end(s, w);
                if w < e {
                    Some(s.subrange(w, e))
                } else {
                    None
                }
            } else {
                None
            }
        },
        Field::Status => {
            let f = next_digit(s, i + status_key().len());
            let e = digits_end(s, f);
            if occurs_at(s, status_key(), i) && f < s.len() && i + status_key().len() <= f - 1
                && s[f - 1] == '"' && e < s.len() && s[e] == '"' {
                Some(s.subrange(f, e))
            } else {
                None
            }
        },
        Field::RetCode => {
            let f = next_digit(s, i + ret_code_key().len());
            if occurs_at(s, ret_code_key(), i) && f < s.len() {
                Some(s.subrange(f, digits_end(s, f)))
            } else {
                None
            }
        },
    }
}

/// The capture of the leftmost match that starts at `i` or later.
pub open spec fn capture_from(field: Field, s: Seq<char>, i: int) -> Option<Seq<char>>
    decreases s.len() + 1 - i,
{
    if i < 0 || i > s.len() {
        None
    } else if capture_at(field, s, i) is Some {
        capture_at(field, s, i)
    } else {
        capture_from(field, s, i + 1)
    }
}

/// The capture of the leftmost match of the pattern of `field` in `s`.
pub open spec fn capture_of(field: Field, s: Seq<char>) -> Option<Seq<char>> {
    capture_from(field, s, 0)
}

pub open spec fn trace_id_of(s: Seq<char>) -> Option<Seq<char>> {
    capture_of(Field::TraceId, s)
}

pub open spec fn status_of(s: Seq<char>) -> Option<Seq<char>> {
    capture_of(Field::Status, s)
}

pub open spec fn ret_code_of(s: Seq<char>) -> Option<Seq<char>> {
    capture_of(Field::RetCode, s)
}

/// The merchant/product filter: `m` stands in `line`, and `p` stands after it
/// with no line break in between.
pub open spec fn filter_holds(m: Seq<char>, p: Seq<char>, line: Seq<char>) -> bool {
    exists|i: int, j: int|
        #![trigger occurs_at(line, m, i), occurs_at(line, p, j)]
        occurs_at(line, m, i) && occurs_at(line, p, j) && i + m.len() <= j && forall|k: int|
            i + m.len() <= k < j ==> line[k] != '\n'
}

pub open spec fn is_meta(c: char) -> bool {
    c == '\\' || c == '.' || c == '+' || c == '*' || c == '?' || c == '(' || c == ')' || c
        == '|' || c == '[' || c == ']' || c == '{' || c == '}' || c == '^' || c == '$' || c
        == '#' || c == '&' || c == '-' || c == '~'
}

/// `s` with a backslash put before each regex meta character.
pub open spec fn escaped(s: Seq<char>) -> Seq<char>
    decreases s.len(),
{
    if s.len() == 0 {
        s
    } else {
        let c = s.last();
        let tail = if is_meta(c) {
            seq!['\\', c]
        } else {
            seq![c]
        };
        escaped(s.drop_last()) + tail
    }
}

pub open spec fn opt_view(o: Option<String>) -> Option<Seq<char>> {
    match o {
        Some(s) => Some(s@),
        None => None,
    }
}

/// Whether the regex crate accepts `source` as a pattern. With the default
/// builder settings this depends on the pattern text alone.
pub uninterp spec fn compiles(source: Seq<char>) -> bool;

/// The pattern source of each capture field. Only space and tab count as the
/// optional whitespace after `traceId:`: a log line holds no line break, and
/// keeping Unicode white space out lets the capture be stated exactly.
pub open spec fn field_source(field: Field) -> Seq<char> {
    match field {
        Field::TraceId => "traceId:[ \t]*([0-9]+)"@,
        Field::Status => "status[^0-9]*\"([0-9]+)\""@,
        Field::RetCode => "retCode[^0-9]*([0-9]+)"@,
    }
}

/// The pattern source of the filter: both identifiers escaped, any characters
/// between them.
pub open spec fn filter_source(m: Seq<char>, p: Seq<char>) -> Seq<char> {
    escaped(m) + seq!['.', '*'] + escaped(p)
}

/// The error of the first pattern, in the order filter, trace id, status,
/// return code, that does not compile.
pub open spec fn first_refused(m: Seq<char>, p: Seq<char>) -> Option<PatternError> {
    if !compiles(filter_source(m, p)) {
        Some(PatternError::Filter)
    } else if !compiles(field_source(Field::TraceId)) {
        Some(PatternError::Capture(Field::TraceId))
    } else if !compiles(field_source(Field::Status)) {
        Some(PatternError::Capture(Field::Status))
    } else if !compiles(field_source(Field::RetCode)) {
        Some(PatternError::Capture(Field::RetCode))
    } else {
        None
    }
}

/// All four patterns for merchant `m` and product `p` compile.
pub open spec fn patterns_compile(m: Seq<char>, p: Seq<char>) -> bool {
    first_refused(m, p) is None
}

/// Relies on `regex::Regex::new`: compiles a pattern; `None` where it refuses it.
#[verifier::external_body]
fn compile(source: &str) -> (r: Option<regex::Regex>)
    ensures
        r is Some <==> compiles(source@),
{
    regex::Regex::new(source).ok()
}

/// Relies on `regex::escape`: each meta character gets a backslash before it.
#[verifier::external_body]
fn escape(s: &str) -> (r: String)
    ensures
        r@ == escaped(s@),
{
    regex::escape(s)
}

/// A compiled capture pattern for one [`Field`].
///
/// The regex is built only in [`Extractor::new`], from the source of `field`.
pub struct Extractor {
    field: Field,
    re: regex::Regex,
}

impl Extractor {
    pub closed spec fn field(&self) -> Field {
        self.field
    }

    /// Compiles the pattern of `field`.
    pub fn new(field: Field) -> (r: Option<Extractor>)
        ensures
            r is Some <==> compiles(field_source(field)),
            r matches Some(x) ==> x.field() == field,
    {
        proof {
            reveal_strlit("traceId:[ \t]*([0-9]+)");
            reveal_strlit("status[^0-9]*\"([0-9]+)\"");
            reveal_strlit("retCode[^0-9]*([0-9]+)");
        }
        let source = match field {
            Field::TraceId => "traceId:[ \t]*([0-9]+)",
            Field::Status => "status[^0-9]*\"([0-9]+)\"",
            Field::RetCode => "retCode[^0-9]*([0-9]+)",
        };
        match compile(source) {
            Some(re) => Some(Extractor { field, re }),
            None => None,
        }
    }

    /// Relies on `regex::Regex::captures`: the first group of the leftmost-first
    /// match, on the regex that `new` compiled for `self.field`.
    #[verifier::external_body]
    pub(crate) fn capture(&self, text: &str) -> (r: Option<String>)
        ensures
            opt_view(r) == capture_of(self.field(), text@),
    {
        match self.re.captures(text) {
            Some(c) => match c.get(1) {
                Some(g) => Some(g.as_str().to_string()),
                None => None,
            },
            None => None,
        }
    }
}

/// The merchant/product filter, compiled from the two identifiers taken as
/// literals.
///
/// The regex is built only in [`Filter::new`], from the escaped merchant, `.*`,
/// and the escaped product.
pub struct Filter {
    merchant: String,
    product: String,
    re: regex::Regex,
}

impl Filter {
    pub closed spec fn merchant(&self) -> Seq<char> {
        self.merchant@
    }

    pub closed spec fn product(&self) -> Seq<char> {
        self.product@
    }

    /// Compiles the filter for `merchant` followed by `product`.
    pub fn new(merchant: &str, product: &str) -> (r: Option<Filter>)
        ensures
            r is Some <==> compiles(filter_source(merchant@, product@)),
            r matches Some(f) ==> f.merchant() == merchant@ && f.product() == product@,
    {
        proof {
            reveal_strlit(".*");
        }
        let mut source = escape(merchant);
        source.append(".*");
        let tail = escape(product);
        source.append(tail.as_str());
        assert(source@ =~= filter_source(merchant@, product@));
        match compile(source.as_str()) {
            Some(re) => Some(
                Filter { merchant: String::from_str(merchant), product: String::from_str(product), re },
            ),
            None => None,
        }
    }

    /// Relies on `regex::Regex::is_match`, on the regex that `new` compiled:
    /// the merchant literally, any characters but a line break, the product
    /// literally.
    #[verifier::external_body]
    pub(crate) fn matches(&self, line: &str) -> (r: bool)
        ensures
            r == filter_holds(self.merchant(), self.product(), line@),
    {
        self.re.is_match(line)
    }
}

/// Which pattern the regex crate refused to compile.
#[derive(Clone, Copy, Debug, PartialEq, Eq, Structural)]
pub enum PatternError {
    Filter,
    Capture(Field),
}

/// The four patterns, compiled once: the filter for one merchant/product pair
/// and the trace-id, status and return-code extractors.
pub struct Patterns {
    filter: Filter,
    trace: Extractor,
    status: Extractor,
    ret_code: Extractor,
}

impl Patterns {
    #[verifier::type_invariant]
    spec fn fields_fit(&self) -> bool {
        &&& self.trace.field() == Field::TraceId
        &&& self.status.field() == Field::Status
        &&& self.ret_code.field() == Field::RetCode
    }

    pub closed spec fn merchant(&self) -> Seq<char> {
        self.filter.merchant()
    }

    pub closed spec fn product(&self) -> Seq<char> {
        self.filter.product()
    }

    /// Compiles the four patterns; the error names the first one refused.
    pub fn new(merchant: &str, product: &str) -> (r: Result<Patterns, PatternError>)
        ensures
            r is Ok <==> patterns_compile(merchant@, product@),
            r matches Err(e) ==> first_refused(merchant@, product@) == Some(e),
            r matches Ok(p) ==> p.merchant() == merchant@ && p.product() == product@,
    {
        let filter = match Filter::new(merchant, product) {
            Some(f) => f,
            None => return Err(PatternError::Filter),
        };
        let trace = match Extractor::new(Field::TraceId) {
            Some(x) => x,
            None => return Err(PatternError::Capture(Field::TraceId)),
        };
        let status = match Extractor::new(Field::Status) {
            Some(x) => x,
            None => return Err(PatternError::Capture(Field::Status)),
        };
        let ret_code = match Extractor::new(Field::RetCode) {
            Some(x) => x,
            None => return Err(PatternError::Capture(Field::RetCode)),
        };
        Ok(Patterns { filter, trace, status, ret_code })
    }

    /// Whether `line` names the merchant and then the product.
    pub fn filter_matches(&self, line: &str) -> (r: bool)
        ensures
            r == filter_holds(self.merchant(), self.product(), line@),
    {
        self.filter.matches(line)
    }

    /// The digits after the first `traceId:` that is followed by them.
    pub fn trace_id(&self, line: &str) -> (r: Option<String>)
        ensures
            opt_view(r) == trace_id_of(line@),
    {
        proof {
            use_type_invariant(self);
        }
        self.trace.capture(line)
    }

    /// The quoted digits of the first `status` field that has them.
    pub fn status(&self, text: &str) -> (r: Option<String>)
        ensures
            opt_view(r) == status_of(text@),
    {
        proof {
            use_type_invariant(self);
        }
        self.status.capture(text)
    }

    /// The digits of the first `retCode` field that has them.
    pub fn ret_code(&self, text: &str) -> (r: Option<String>)
        ensures
            opt_view(r) == ret_code_of(text@),
    {
        proof {
            use_type_invariant(self);
        }
        self.ret_code.capture(text)
    }
}

} // verus!
