//! The two result records and the functions that lay them out.

use vstd::prelude::*;
use vstd::slice::slice_to_vec;
use vstd::utf8::encode_utf8;

verus! {

/// The contents of each buffer of a sequence of owned buffers.
pub open spec fn buffers_of(buffers: Seq<Vec<u8>>) -> Seq<Seq<u8>> {
    Seq::new(buffers.len(), |i: int| buffers[i]@)
}

/// The bytes that stand before the first zero byte, or all of them where
/// there is none: what a reader of a zero-terminated string would see.
pub open spec fn until_zero(bytes: Seq<u8>) -> Seq<u8>
    decreases bytes.len(),
{
    if bytes.len() == 0 || bytes[0] == 0u8 {
        Seq::empty()
    } else {
        seq![bytes[0]] + until_zero(bytes.drop_first())
    }
}

/// A prefix without a zero byte that ends where the bytes end, or just
/// before a zero byte, is the part before the first zero byte.
pub proof fn lemma_until_zero_is_prefix(bytes: Seq<u8>, n: int)
    requires
        0 <= n <= bytes.len(),
        forall|i: int| 0 <= i < n ==> bytes[i] != 0u8,
        n == bytes.len() || bytes[n] == 0u8,
    ensures
        until_zero(bytes) == bytes.take(n),
    decreases n,
{
    if n == 0 {
        assert(bytes.take(0) =~= Seq::<u8>::empty());
    } else {
        let rest = bytes.drop_first();
        assert forall|i: int| 0 <= i < n - 1 implies rest[i] != 0u8 by {
            assert(rest[i] == bytes[i + 1]);
        }
        lemma_until_zero_is_prefix(rest, n - 1);
        assert(bytes.take(n) =~= seq![bytes[0]] + rest.take(n - 1));
    }
}

/// Bytes without a zero byte are kept whole.
pub proof fn lemma_until_zero_keeps_zero_free(bytes: Seq<u8>)
    requires
        forall|i: int| 0 <= i < bytes.len() ==> bytes[i] != 0u8,
    ensures
        until_zero(bytes) == bytes,
{
    lemma_until_zero_is_prefix(bytes, bytes.len() as int);
    assert(bytes.take(bytes.len() as int) =~= bytes);
}

/// A byte string followed by the single zero byte that closes it.
pub open spec fn terminated(bytes: Seq<u8>) -> Seq<u8> {
    bytes.push(0u8)
}

/// Outcome of applying parameters to a script.
///
/// `value` is owned by the record. On success it holds the resulting script,
/// on failure the UTF-8 bytes of the error text. `length` is the number of
/// bytes in `value`.
#[derive(Debug)]
pub struct PlutusScriptResult {
    pub success: bool,
    pub value: Vec<u8>,
    pub length: usize,
}

impl PlutusScriptResult {
    /// The stated length is the length of the buffer.
    pub open spec fn well_formed(&self) -> bool {
        self.length == self.value@.len()
    }

    /// The record reports success and carries exactly `script`.
    pub open spec fn carries_script(&self, script: Seq<u8>) -> bool {
        &&& self.success
        &&& self.value@ == script
        &&& self.length == script.len()
    }

    /// The record reports failure and carries exactly the bytes of `text`.
    pub open spec fn carries_error(&self, text: Seq<char>) -> bool {
        &&& !self.success
        &&& self.value@ == encode_utf8(text)
        &&& self.length == encode_utf8(text).len()
    }

    /// The record carries what the evaluator returned: the applied script,
    /// or the text of its error.
    pub open spec fn carries_outcome(&self, outcome: Result<Vec<u8>, String>) -> bool {
        match outcome {
            Ok(script) => self.carries_script(script@),
            Err(text) => self.carries_error(text@),
        }
    }

    /// The success record for `script`. The buffer is moved in, not copied.
    pub fn from_script(script: Vec<u8>) -> (r: Self)
        ensures
            r.carries_script(script@),
            r.well_formed(),
    {
        let length: usize = script.len();
        PlutusScriptResult { success: true, value: script, length }
    }

    /// The failure record for an error whose text is `text`. The bytes are
    /// copied into a buffer of the record's own, so they stay readable for
    /// as long as the record lives.
    pub fn from_error_text(text: &str) -> (r: Self)
        ensures
            r.carries_error(text@),
            r.well_formed(),
    {
        let value: Vec<u8> = slice_to_vec(text.as_bytes());
        let length: usize = value.len();
        PlutusScriptResult { success: false, value, length }
    }

    /// The record for either outcome of a parameter application.
    pub fn from_outcome(outcome: Result<Vec<u8>, String>) -> (r: Self)
        ensures
            r.well_formed(),
            r.carries_outcome(outcome),
    {
        match outcome {
            Ok(script) => Self::from_script(script),
            Err(text) => Self::from_error_text(text.as_str()),
        }
    }
}

/// Outcome of evaluating the redeemers of a transaction.
///
/// On success `value` holds one owned buffer per redeemer, `length` their
/// number and `length_value` the length of each, index by index; `error` is
/// absent. On failure `value` and `length_value` are empty and `error` holds
/// the bytes of the error text followed by a zero byte, with `error_length`
/// the number of bytes before that zero.
#[derive(Debug)]
pub struct ExUnitsResult {
    pub success: bool,
    pub value: Vec<Vec<u8>>,
    pub length: usize,
    pub length_value: Vec<usize>,
    pub error: Option<Vec<u8>>,
    pub error_length: usize,
}

impl ExUnitsResult {
    /// There are as many lengths as buffers, `length` counts them, and each
    /// length is that of the buffer at the same index.
    pub open spec fn lengths_agree(&self) -> bool {
        &&& self.length == self.value@.len()
        &&& self.length_value@.len() == self.value@.len()
        &&& forall|i: int|
            0 <= i < self.value@.len() ==> self.length_value@[i] == (#[trigger] self.value@[i])@.len()
    }

    /// The record reports success and carries exactly `redeemers`.
    pub open spec fn carries_redeemers(&self, redeemers: Seq<Seq<u8>>) -> bool {
        &&& self.success
        &&& self.length == redeemers.len()
        &&& self.value@.len() == redeemers.len()
        &&& self.length_value@.len() == redeemers.len()
        &&& forall|i: int|
            #![trigger self.value@[i]]
            #![trigger self.length_value@[i]]
            0 <= i < redeemers.len() ==> self.value@[i]@ == redeemers[i] && self.length_value@[i]
                == redeemers[i].len()
        &&& self.error is None
        &&& self.error_length == 0
    }

    /// The record reports failure and carries the bytes of `text` up to its
    /// first zero byte, if it has one, closed by a zero byte.
    pub open spec fn carries_error(&self, text: Seq<char>) -> bool {
        &&& !self.success
        &&& self.value@.len() == 0
        &&& self.length == 0
        &&& self.length_value@.len() == 0
        &&& self.error is Some
        &&& self.error->0@ == terminated(until_zero(encode_utf8(text)))
        &&& self.error_length == until_zero(encode_utf8(text)).len()
    }

    /// The record carries what the evaluator returned: its redeemers, or
    /// the text of its error.
    pub open spec fn carries_outcome(&self, outcome: Result<Vec<Vec<u8>>, String>) -> bool {
        match outcome {
            Ok(redeemers) => self.carries_redeemers(buffers_of(redeemers@)),
            Err(text) => self.carries_error(text@),
        }
    }

    /// What holds of every record this crate builds.
    pub open spec fn well_formed(&self) -> bool {
        &&& self.lengths_agree()
        &&& self.success ==> self.error is None && self.error_length == 0
        &&& !self.success ==> {
            &&& self.value@.len() == 0
            &&& self.error is Some
            &&& self.error->0@.len() == self.error_length + 1
            &&& self.error->0@[self.error_length as int] == 0u8
            &&& forall|i: int| 0 <= i < self.error_length ==> self.error->0@[i] != 0u8
        }
    }

    /// The success record for `redeemers`. Each buffer is moved in, and its
    /// length is written at the same index of `length_value`.
    pub fn from_redeemers(redeemers: Vec<Vec<u8>>) -> (r: Self)
        ensures
            r.carries_redeemers(buffers_of(redeemers@)),
            r.value@ == redeemers@,
            r.well_formed(),
    {
        let length: usize = redeemers.len();
        let mut inner_lengths: Vec<usize> = Vec::with_capacity(length);
        let mut i: usize = 0;
        while i < length
            invariant
                length == redeemers@.len(),
                i <= length,
                inner_lengths@.len() == i,
                forall|j: int| 0 <= j < i ==> inner_lengths@[j] == (#[trigger] redeemers@[j])@.len(),
            decreases length - i,
        {
            inner_lengths.push(redeemers[i].len());
            i += 1;
        }
        ExUnitsResult {
            success: true,
            value: redeemers,
            length,
            length_value: inner_lengths,
            error: None,
            error_length: 0,
        }
    }

    /// The failure record for an error whose text is `text`.
    pub fn from_error_text(text: &str) -> (r: Self)
        ensures
            r.carries_error(text@),
            r.well_formed(),
    {
        let bytes: &[u8] = text.as_bytes();
        let mut error: Vec<u8> = Vec::new();
        let mut i: usize = 0;
        while i < bytes.len() && bytes[i] != 0u8
            invariant
                i <= bytes@.len(),
                error@ == bytes@.take(i as int),
                forall|j: int| 0 <= j < i ==> bytes@[j] != 0u8,
            decreases bytes@.len() - i,
        {
            error.push(bytes[i]);
            i += 1;
            assert(error@ =~= bytes@.take(i as int));
        }
        proof {
            lemma_until_zero_is_prefix(bytes@, i as int);
        }
        let error_length: usize = error.len();
        error.push(0u8);
        ExUnitsResult {
            success: false,
            value: Vec::new(),
            length: 0,
            length_value: Vec::new(),
            error: Some(error),
            error_length,
        }
    }

    /// The record for either outcome of an evaluation.
    pub fn from_outcome(outcome: Result<Vec<Vec<u8>>, String>) -> (r: Self)
        ensures
            r.well_formed(),
            r.carries_outcome(outcome),
    {
        match outcome {
            Ok(redeemers) => Self::from_redeemers(redeemers),
            Err(text) => Self::from_error_text(text.as_str()),
        }
    }
}

/// A record that carries redeemers is well formed: it has as many lengths as
/// buffers, and each length is that of the buffer beside it.
pub proof fn lemma_redeemers_lengths_agree(r: ExUnitsResult, redeemers: Seq<Seq<u8>>)
    requires
        r.carries_redeemers(redeemers),
    ensures
        r.lengths_agree(),
        r.well_formed(),
        buffers_of(r.value@) == redeemers,
{
    assert(buffers_of(r.value@) =~= redeemers);
}

/// A record that carries an error is well formed: its error buffer is never
/// empty, holds no zero byte but its last, and `error_length` counts the
/// bytes before that one. Where the text's bytes hold no zero byte, they are
/// all there.
pub proof fn lemma_error_is_terminated(r: ExUnitsResult, text: Seq<char>)
    requires
        r.carries_error(text),
    ensures
        r.well_formed(),
        r.error->0@.len() == r.error_length + 1,
        r.error->0@.last() == 0u8,
        r.error->0@.subrange(0, r.error_length as int) == until_zero(encode_utf8(text)),
        (forall|i: int| 0 <= i < encode_utf8(text).len() ==> encode_utf8(text)[i] != 0u8)
            ==> r.error_length == encode_utf8(text).len() && r.error->0@ == terminated(
            encode_utf8(text),
        ),
{
    let bytes = encode_utf8(text);
    let kept = until_zero(bytes);
    assert(terminated(kept).subrange(0, kept.len() as int) =~= kept);
    lemma_until_zero_has_no_zero(bytes);
    if forall|i: int| 0 <= i < bytes.len() ==> bytes[i] != 0u8 {
        lemma_until_zero_keeps_zero_free(bytes);
    }
}

/// The part before the first zero byte holds no zero byte.
pub proof fn lemma_until_zero_has_no_zero(bytes: Seq<u8>)
    ensures
        until_zero(bytes).len() <= bytes.len(),
        forall|i: int| 0 <= i < until_zero(bytes).len() ==> until_zero(bytes)[i] != 0u8,
    decreases bytes.len(),
{
    if bytes.len() != 0 && bytes[0] != 0u8 {
        lemma_until_zero_has_no_zero(bytes.drop_first());
    }
}

/// A record carries at most one outcome: the redeemers of a success and the
/// bytes of a failure's text are each fixed by the record.
pub proof fn lemma_outcome_is_unique(
    r: ExUnitsResult,
    first: Seq<Seq<u8>>,
    second: Seq<Seq<u8>>,
    text: Seq<char>,
)
    requires
        r.carries_redeemers(first),
    ensures
        !r.carries_error(text),
        r.carries_redeemers(second) ==> first == second,
{
    if r.carries_redeemers(second) {
        assert forall|i: int| 0 <= i < first.len() implies first[i] == second[i] by {
            assert(r.value@[i]@ == first[i]);
            assert(r.value@[i]@ == second[i]);
        }
        assert(first =~= second);
    }
}

} // verus!
