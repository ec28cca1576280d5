//! Predicates over captured output byte streams, and the coercions that turn
//! convenient literal shapes (a byte literal, a text string, a predicate over
//! decoded text) into such predicates.
use vstd::prelude::*;
use vstd::slice::slice_to_vec;
use vstd::string::*;
use vstd::utf8::*;

use crate::render::decode_buffer;
use crate::render::dump_buffer;
use crate::render::dump_spec;
use crate::tree::render_spec;
use crate::tree::CaseTree;

verus! {

/// A predicate over a captured byte stream: a boolean test plus a renderable
/// explanation of a failed match.
pub trait OutputPredicate: Sized {
    /// Whether the predicate accepts the given bytes.
    spec fn spec_eval(&self, item: Seq<u8>) -> bool;

    /// The rendered explanation produced when the predicate rejects `item`.
    spec fn spec_case(&self, item: Seq<u8>) -> Seq<char>;

    /// Evaluates the predicate on a byte stream.
    fn eval(&self, item: &[u8]) -> (r: bool)
        ensures
            r == self.spec_eval(item@),
    ;

    /// Explains a failed match: returns a tree exactly when the predicate
    /// rejects `item`, and that tree renders as `spec_case`.
    fn find_case(&self, item: &[u8]) -> (r: Option<CaseTree>)
        ensures
            r is Some <==> !self.spec_eval(item@),
            r matches Some(t) ==> render_spec(t) == self.spec_case(item@),
    ;
}

/// A predicate over decoded text: a boolean test plus a renderable
/// explanation of a failed match.
pub trait TextPredicate: Sized {
    /// Whether the predicate accepts the given text.
    spec fn spec_eval(&self, item: Seq<char>) -> bool;

    /// The rendered explanation produced when the predicate rejects `item`.
    spec fn spec_case(&self, item: Seq<char>) -> Seq<char>;

    /// Evaluates the predicate on decoded text.
    fn eval(&self, item: &str) -> (r: bool)
        ensures
            r == self.spec_eval(item@),
    ;

    /// Explains a failed match: returns a tree exactly when the predicate
    /// rejects `item`, and that tree renders as `spec_case`.
    fn find_case(&self, item: &str) -> (r: Option<CaseTree>)
        ensures
            r is Some <==> !self.spec_eval(item@),
            r matches Some(t) ==> render_spec(t) == self.spec_case(item@),
    ;
}

/// Coercion of a convenient literal shape into an [`OutputPredicate`], fixing
/// both what the coerced predicate accepts and how it explains a mismatch.
pub trait IntoOutputPredicate<P: OutputPredicate>: Sized {
    /// Whether the coerced predicate accepts the given bytes.
    spec fn spec_accepts(&self, item: Seq<u8>) -> bool;

    /// The explanation the coerced predicate renders when it rejects `item`.
    spec fn spec_explain(&self, item: Seq<u8>) -> Seq<char>;

    /// Converts to a predicate for testing a captured byte stream.
    fn into_output(self) -> (r: P)
        ensures
            forall|b: Seq<u8>| r.spec_eval(b) == self.spec_accepts(b),
            forall|b: Seq<u8>| r.spec_case(b) == self.spec_explain(b),
    ;
}

impl<P: OutputPredicate> IntoOutputPredicate<P> for P {
    open spec fn spec_accepts(&self, item: Seq<u8>) -> bool {
        self.spec_eval(item)
    }

    open spec fn spec_explain(&self, item: Seq<u8>) -> Seq<char> {
        self.spec_case(item)
    }

    fn into_output(self) -> (r: P) {
        self
    }
}

/// Whether two byte slices hold the same bytes.
fn bytes_equal(a: &[u8], b: &[u8]) -> (r: bool)
    ensures
        r == (a@ == b@),
{
    if a.len() != b.len() {
        return false;
    }
    let mut i: usize = 0;
    while i < a.len()
        invariant
            i <= a@.len(),
            a@.len() == b@.len(),
            forall|j: int| 0 <= j < i ==> a@[j] == b@[j],
        decreases a@.len() - i,
    {
        if a[i] != b[i] {
            return false;
        }
        i += 1;
    }
    proof {
        assert(a@ =~= b@);
    }
    true
}

/// The explanation text for a byte stream that failed an exact byte check.
pub open spec fn bytes_content_case(expected: Seq<u8>, item: Seq<u8>) -> Seq<char> {
    "output == ```"@ + dump_spec(expected) + "```"@ + "\n"@ + "  actual: ```"@ + dump_spec(item)
        + "```"@ + "\n"@
}

/// The explanation text for a byte stream that failed a decoded-text check.
pub open spec fn str_content_case(expected: Seq<char>, item: Seq<u8>) -> Seq<char> {
    "output == ```"@ + expected + "```"@ + "\n"@ + "  actual: ```"@ + dump_spec(item) + "```"@
        + "\n"@
}

/// The explanation text for decoded text that failed a similarity check.
pub open spec fn similar_text_case(expected: Seq<char>, item: Seq<char>) -> Seq<char> {
    "text == ```"@ + expected + "```"@ + "\n"@ + "  actual: ```"@ + item + "```"@ + "\n"@
}

/// The explanation text for a byte stream that is not valid UTF-8.
pub open spec fn invalid_utf8_case(item: Seq<u8>) -> Seq<char> {
    "output is not valid UTF-8"@ + "\n"@ + "  actual: ```"@ + dump_spec(item) + "```"@ + "\n"@
}

/// The explanation text of a text predicate lifted over UTF-8 decoding.
pub open spec fn decoded_case(inner: Seq<char>) -> Seq<char> {
    "decoded output"@ + "\n"@ + inner
}

/// Builds the leaf that shows the observed bytes in rendered form.
fn actual_dump_leaf(item: &[u8]) -> (r: CaseTree)
    ensures
        render_spec(r) == "  actual: ```"@ + dump_spec(item@) + "```"@ + "\n"@,
{
    let mut label = String::from_str("  actual: ```");
    let d = dump_buffer(item);
    label.append(d.as_str());
    label.append("```");
    let r = CaseTree::leaf(label);
    proof {
        assert(render_spec(r) =~= "  actual: ```"@ + dump_spec(item@) + "```"@ + "\n"@);
    }
    r
}

/// A predicate that accepts exactly one byte sequence, byte for byte.
pub struct BytesContentOutputPredicate {
    pub expected: Vec<u8>,
}

impl BytesContentOutputPredicate {
    /// The predicate accepting exactly the bytes of `value`.
    pub fn new(value: Vec<u8>) -> (r: Self)
        ensures
            r.expected == value,
    {
        BytesContentOutputPredicate { expected: value }
    }
}

impl OutputPredicate for BytesContentOutputPredicate {
    open spec fn spec_eval(&self, item: Seq<u8>) -> bool {
        item == self.expected@
    }

    open spec fn spec_case(&self, item: Seq<u8>) -> Seq<char> {
        bytes_content_case(self.expected@, item)
    }

    fn eval(&self, item: &[u8]) -> (r: bool) {
        bytes_equal(item, self.expected.as_slice())
    }

    fn find_case(&self, item: &[u8]) -> (r: Option<CaseTree>) {
        if bytes_equal(item, self.expected.as_slice()) {
            None
        } else {
            let mut label = String::from_str("output == ```");
            let d = dump_buffer(self.expected.as_slice());
            label.append(d.as_str());
            label.append("```");
            let t = CaseTree::node_with_child(label, actual_dump_leaf(item));
            proof {
                assert(render_spec(t) =~= bytes_content_case(self.expected@, item@));
            }
            Some(t)
        }
    }
}

impl IntoOutputPredicate<BytesContentOutputPredicate> for &'static [u8] {
    open spec fn spec_accepts(&self, item: Seq<u8>) -> bool {
        item == self@
    }

    open spec fn spec_explain(&self, item: Seq<u8>) -> Seq<char> {
        bytes_content_case(self@, item)
    }

    fn into_output(self) -> (r: BytesContentOutputPredicate) {
        BytesContentOutputPredicate::new(slice_to_vec(self))
    }
}

/// A predicate that accepts exactly the UTF-8 encoding of one text string:
/// the actual bytes must decode to text equal to the expected string.
pub struct StrContentOutputPredicate {
    pub expected: String,
}

impl StrContentOutputPredicate {
    /// The predicate accepting exactly the encoding of the borrowed text.
    pub fn from_str(value: &'static str) -> (r: Self)
        ensures
            r.expected@ == value@,
    {
        StrContentOutputPredicate { expected: String::from_str(value) }
    }

    /// The predicate accepting exactly the encoding of the owned text.
    pub fn from_string(value: String) -> (r: Self)
        ensures
            r.expected@ == value@,
    {
        StrContentOutputPredicate { expected: value }
    }
}

impl OutputPredicate for StrContentOutputPredicate {
    open spec fn spec_eval(&self, item: Seq<u8>) -> bool {
        item == encode_utf8(self.expected@)
    }

    open spec fn spec_case(&self, item: Seq<u8>) -> Seq<char> {
        str_content_case(self.expected@, item)
    }

    fn eval(&self, item: &[u8]) -> (r: bool) {
        bytes_equal(item, self.expected.as_str().as_bytes())
    }

    fn find_case(&self, item: &[u8]) -> (r: Option<CaseTree>) {
        if bytes_equal(item, self.expected.as_str().as_bytes()) {
            None
        } else {
            let mut label = String::from_str("output == ```");
            label.append(self.expected.as_str());
            label.append("```");
            let t = CaseTree::node_with_child(label, actual_dump_leaf(item));
            proof {
                assert(render_spec(t) =~= str_content_case(self.expected@, item@));
            }
            Some(t)
        }
    }
}

impl IntoOutputPredicate<StrContentOutputPredicate> for String {
    open spec fn spec_accepts(&self, item: Seq<u8>) -> bool {
        item == encode_utf8(self@)
    }

    open spec fn spec_explain(&self, item: Seq<u8>) -> Seq<char> {
        str_content_case(self@, item)
    }

    fn into_output(self) -> (r: StrContentOutputPredicate) {
        StrContentOutputPredicate::from_string(self)
    }
}

impl IntoOutputPredicate<StrContentOutputPredicate> for &'static str {
    open spec fn spec_accepts(&self, item: Seq<u8>) -> bool {
        item == encode_utf8(self@)
    }

    open spec fn spec_explain(&self, item: Seq<u8>) -> Seq<char> {
        str_content_case(self@, item)
    }

    fn into_output(self) -> (r: StrContentOutputPredicate) {
        StrContentOutputPredicate::from_str(self)
    }
}

/// A predicate over decoded text that accepts exactly one expected string.
pub struct SimilarTextPredicate {
    pub expected: String,
}

impl SimilarTextPredicate {
    /// The predicate accepting exactly the given text.
    pub fn new(value: String) -> (r: Self)
        ensures
            r.expected@ == value@,
    {
        SimilarTextPredicate { expected: value }
    }
}

impl TextPredicate for SimilarTextPredicate {
    open spec fn spec_eval(&self, item: Seq<char>) -> bool {
        item == self.expected@
    }

    open spec fn spec_case(&self, item: Seq<char>) -> Seq<char> {
        similar_text_case(self.expected@, item)
    }

    fn eval(&self, item: &str) -> (r: bool) {
        let r = bytes_equal(item.as_bytes(), self.expected.as_str().as_bytes());
        proof {
            if encode_utf8(item@) == encode_utf8(self.expected@) {
                encode_utf8_decode_utf8(item@);
                encode_utf8_decode_utf8(self.expected@);
            }
        }
        r
    }

    fn find_case(&self, item: &str) -> (r: Option<CaseTree>) {
        if self.eval(item) {
            None
        } else {
            let mut label = String::from_str("text == ```");
            label.append(self.expected.as_str());
            label.append("```");
            let mut leaf_label = String::from_str("  actual: ```");
            leaf_label.append(item);
            leaf_label.append("```");
            let t = CaseTree::node_with_child(label, CaseTree::leaf(leaf_label));
            proof {
                assert(render_spec(t) =~= similar_text_case(self.expected@, item@));
            }
            Some(t)
        }
    }
}

/// A text predicate lifted to a byte-stream predicate: the bytes must decode
/// as UTF-8, and the decoded text must satisfy the inner predicate.
pub struct StrOutputPredicate<P: TextPredicate> {
    pub inner: P,
}

impl<P: TextPredicate> StrOutputPredicate<P> {
    /// Lifts a text predicate over UTF-8 decoding.
    pub fn new(pred: P) -> (r: Self)
        ensures
            r.inner == pred,
    {
        StrOutputPredicate { inner: pred }
    }
}

impl<P: TextPredicate> OutputPredicate for StrOutputPredicate<P> {
    open spec fn spec_eval(&self, item: Seq<u8>) -> bool {
        valid_utf8(item) && self.inner.spec_eval(decode_utf8(item))
    }

    open spec fn spec_case(&self, item: Seq<u8>) -> Seq<char> {
        if valid_utf8(item) {
            decoded_case(self.inner.spec_case(decode_utf8(item)))
        } else {
            invalid_utf8_case(item)
        }
    }

    fn eval(&self, item: &[u8]) -> (r: bool) {
        match decode_buffer(item) {
            Some(s) => self.inner.eval(s),
            None => false,
        }
    }

    fn find_case(&self, item: &[u8]) -> (r: Option<CaseTree>) {
        match decode_buffer(item) {
            Some(s) => {
                match self.inner.find_case(s) {
                    Some(t) => {
                        let r = CaseTree::node_with_child(String::from_str("decoded output"), t);
                        proof {
                            assert(render_spec(r) =~= decoded_case(
                                self.inner.spec_case(decode_utf8(item@)),
                            ));
                        }
                        Some(r)
                    },
                    None => None,
                }
            },
            None => {
                let leaf = actual_dump_leaf(item);
                let r = CaseTree::node_with_child(
                    String::from_str("output is not valid UTF-8"),
                    leaf,
                );
                proof {
                    assert(render_spec(r) =~= invalid_utf8_case(item@));
                }
                Some(r)
            },
        }
    }
}

impl<P: TextPredicate> IntoOutputPredicate<StrOutputPredicate<P>> for P {
    open spec fn spec_accepts(&self, item: Seq<u8>) -> bool {
        valid_utf8(item) && self.spec_eval(decode_utf8(item))
    }

    open spec fn spec_explain(&self, item: Seq<u8>) -> Seq<char> {
        if valid_utf8(item) {
            decoded_case(self.spec_case(decode_utf8(item)))
        } else {
            invalid_utf8_case(item)
        }
    }

    fn into_output(self) -> (r: StrOutputPredicate<P>) {
        StrOutputPredicate::new(self)
    }
}

/// Coercing a literal byte buffer yields a predicate that accepts exactly
/// those bytes, with no trimming and no decoding.
pub proof fn lemma_bytes_coercion_exact(b: &'static [u8], actual: Seq<u8>)
    ensures
        b.spec_accepts(actual) <==> actual == b@,
{
}

/// Coercing a text string yields a predicate that accepts exactly the byte
/// streams that decode, as UTF-8, to that string: bytes that fail to decode,
/// or that decode to different text, are rejected.
pub proof fn lemma_text_coercion_exact(s: String, actual: Seq<u8>)
    ensures
        s.spec_accepts(actual) <==> (valid_utf8(actual) && decode_utf8(actual) == s@),
{
    if s.spec_accepts(actual) {
        encode_utf8_valid_utf8(s@);
        encode_utf8_decode_utf8(s@);
    }
    if valid_utf8(actual) && decode_utf8(actual) == s@ {
        decode_utf8_encode_utf8(actual);
    }
}

/// The same exactness holds when the text is coerced from a borrowed string.
pub proof fn lemma_borrowed_text_coercion_exact(s: &'static str, actual: Seq<u8>)
    ensures
        s.spec_accepts(actual) <==> (valid_utf8(actual) && decode_utf8(actual) == s@),
{
    if s.spec_accepts(actual) {
        encode_utf8_valid_utf8(s@);
        encode_utf8_decode_utf8(s@);
    }
    if valid_utf8(actual) && decode_utf8(actual) == s@ {
        decode_utf8_encode_utf8(actual);
    }
}

} // verus!
