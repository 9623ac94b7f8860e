//! Tokenizer for the synthesis pipeline.
//!
//! A static vocabulary maps token strings to integer ids.  Encoding is greedy
//! longest-match over the input characters with a single-character fallback
//! and a designated unknown id; decoding reverses the id-to-token mapping,
//! skipping sentinel ids and substituting a replacement marker for ids outside
//! the vocabulary.

use vstd::prelude::*;
use vstd::std_specs::iter::IteratorSpec;
use vstd::string::StringExecFns;

use crate::error::PocketTTSError;

verus! {

broadcast use vstd::string::axiom_spec_iter, vstd::string::next_postcondition;

/// The vocabulary described by a list of (token, id) entries: the earliest
/// entry for a token decides its id.
pub open spec fn entries_vocab(es: Seq<(Seq<char>, u32)>) -> Map<Seq<char>, u32>
    decreases es.len(),
{
    if es.len() == 0 {
        Map::empty()
    } else {
        entries_vocab(es.drop_first()).insert(es.first().0, es.first().1)
    }
}

/// First-match lookup over a list of (token, id) entries.
pub open spec fn entries_lookup(es: Seq<(Seq<char>, u32)>, k: Seq<char>) -> Option<u32>
    decreases es.len(),
{
    if es.len() == 0 {
        None
    } else if es.first().0 == k {
        Some(es.first().1)
    } else {
        entries_lookup(es.drop_first(), k)
    }
}

/// First-match lookup agrees with the vocabulary map.
pub proof fn lemma_entries_lookup_is_vocab(es: Seq<(Seq<char>, u32)>, k: Seq<char>)
    ensures
        entries_lookup(es, k) is Some <==> entries_vocab(es).contains_key(k),
        entries_lookup(es, k) is Some ==> entries_vocab(es)[k] == entries_lookup(es, k)->0,
    decreases es.len(),
{
    if es.len() > 0 {
        lemma_entries_lookup_is_vocab(es.drop_first(), k);
    }
}

/// A sequence holding the id, or nothing.
pub open spec fn opt_id(o: Option<u32>) -> Seq<u32> {
    match o {
        Some(id) => seq![id],
        None => Seq::<u32>::empty(),
    }
}

/// The longest length `l` in `[1, max_l]` such that `text[i..i+l]` is a
/// vocabulary key; `0` when no such length exists.
pub open spec fn best_match(v: Map<Seq<char>, u32>, text: Seq<char>, i: int, max_l: int) -> int
    decreases max_l,
{
    if max_l <= 0 {
        0
    } else if v.contains_key(text.subrange(i, i + max_l)) {
        max_l
    } else {
        best_match(v, text, i, max_l - 1)
    }
}

pub proof fn lemma_best_match_bounds(v: Map<Seq<char>, u32>, text: Seq<char>, i: int, max_l: int)
    requires
        0 <= max_l,
    ensures
        0 <= best_match(v, text, i, max_l) <= max_l,
    decreases max_l,
{
    if max_l > 0 {
        lemma_best_match_bounds(v, text, i, max_l - 1);
    }
}

/// Greedy longest-match encoding of `text[i..]`: take the longest vocabulary
/// match of at most ten characters, else fall back to a single character, else
/// emit the unknown id.
pub open spec fn spec_encode_from(
    v: Map<Seq<char>, u32>,
    unk: u32,
    text: Seq<char>,
    i: int,
) -> Seq<u32>
    decreases text.len() - i when 0 <= i <= text.len()
{
    if i < 0 || i >= text.len() {
        Seq::<u32>::empty()
    } else {
        let max_l = if text.len() - i < 10 {
            text.len() - i
        } else {
            10
        };
        let l = best_match(v, text, i, max_l);
        if 0 < l <= max_l {
            seq![v[text.subrange(i, i + l)]] + spec_encode_from(v, unk, text, i + l)
        } else {
            seq![unk] + spec_encode_from(v, unk, text, i + 1)
        }
    }
}

/// Token ids for a whole text: the sentinel ids, when configured, surround the
/// greedy encoding of the characters.
pub open spec fn spec_encode(
    v: Map<Seq<char>, u32>,
    bos: Option<u32>,
    eos: Option<u32>,
    unk: u32,
    text: Seq<char>,
) -> Seq<u32> {
    opt_id(bos) + spec_encode_from(v, unk, text, 0) + opt_id(eos)
}

/// Is the id one of the configured sentinel ids?
pub open spec fn is_sentinel(bos: Option<u32>, eos: Option<u32>, pad: Option<u32>, id: u32) -> bool {
    bos == Some(id) || eos == Some(id) || pad == Some(id)
}

/// Text decoded from `ids[j..]`: sentinel ids vanish, in-range ids contribute
/// their token text, out-of-range ids contribute the replacement marker.
pub open spec fn spec_decode_from(
    toks: Seq<Seq<char>>,
    bos: Option<u32>,
    eos: Option<u32>,
    pad: Option<u32>,
    ids: Seq<u32>,
    j: int,
) -> Seq<char>
    decreases ids.len() - j when 0 <= j <= ids.len()
{
    if j < 0 || j >= ids.len() {
        Seq::<char>::empty()
    } else {
        let head = if is_sentinel(bos, eos, pad, ids[j]) {
            Seq::<char>::empty()
        } else if ids[j] < toks.len() {
            toks[ids[j] as int]
        } else {
            seq!['\u{FFFD}']
        };
        head + spec_decode_from(toks, bos, eos, pad, ids, j + 1)
    }
}

/// Text decoded from a whole id sequence.
pub open spec fn spec_decode(
    toks: Seq<Seq<char>>,
    bos: Option<u32>,
    eos: Option<u32>,
    pad: Option<u32>,
    ids: Seq<u32>,
) -> Seq<char> {
    spec_decode_from(toks, bos, eos, pad, ids, 0)
}

/// The id of `k`, when the vocabulary has the key.
pub open spec fn opt_lookup(v: Map<Seq<char>, u32>, k: Seq<char>) -> Option<u32> {
    if v.contains_key(k) {
        Some(v[k])
    } else {
        None
    }
}

/// A vocabulary list holds a key exactly when one of its entries carries it.
pub proof fn lemma_vocab_key_iff_entry(es: Seq<(Seq<char>, u32)>, k: Seq<char>)
    ensures
        entries_vocab(es).contains_key(k) <==> exists|j: int|
            0 <= j < es.len() && (#[trigger] es[j]).0 == k,
    decreases es.len(),
{
    if es.len() > 0 {
        lemma_vocab_key_iff_entry(es.drop_first(), k);
        if es[0].0 == k {
        } else if entries_vocab(es).contains_key(k) {
            let j = choose|j: int| 0 <= j < es.drop_first().len() && (#[trigger] es.drop_first()[j]).0
                == k;
            assert(es[j + 1].0 == k);
        } else if exists|j: int| 0 <= j < es.len() && (#[trigger] es[j]).0 == k {
            let j = choose|j: int| 0 <= j < es.len() && (#[trigger] es[j]).0 == k;
            assert(es.drop_first()[j - 1].0 == k);
        }
    }
}

/// When every entry agrees with a map `m` and every key of `m` appears among
/// the entries, the vocabulary of the entries is exactly `m`.
pub proof fn lemma_vocab_of_map_entries(es: Seq<(Seq<char>, u32)>, m: Map<Seq<char>, u32>)
    requires
        forall|j: int| 0 <= j < es.len() ==> m.contains_key((#[trigger] es[j]).0) && m[es[j].0]
            == es[j].1,
        forall|k: Seq<char>| #[trigger] m.contains_key(k) ==> exists|j: int|
            0 <= j < es.len() && (#[trigger] es[j]).0 == k,
    ensures
        entries_vocab(es) =~= m,
    decreases es.len(),
{
    assert forall|k: Seq<char>| entries_vocab(es).contains_key(k) == m.contains_key(k) by {
        lemma_vocab_key_iff_entry(es, k);
    }
    assert forall|k: Seq<char>| m.contains_key(k) implies entries_vocab(es)[k] == m[k] by {
        lemma_vocab_value_from_entries(es, m, k);
    }
}

/// The value a vocabulary list gives a key of `m`, when every entry agrees
/// with `m`, is `m`'s value.
proof fn lemma_vocab_value_from_entries(
    es: Seq<(Seq<char>, u32)>,
    m: Map<Seq<char>, u32>,
    k: Seq<char>,
)
    requires
        forall|j: int| 0 <= j < es.len() ==> m.contains_key((#[trigger] es[j]).0) && m[es[j].0]
            == es[j].1,
        entries_vocab(es).contains_key(k),
    ensures
        entries_vocab(es)[k] == m[k],
    decreases es.len(),
{
    if es.len() > 0 {
        if es[0].0 == k {
        } else {
            lemma_vocab_key_iff_entry(es, k);
            lemma_vocab_key_iff_entry(es.drop_first(), k);
            let j = choose|j: int| 0 <= j < es.len() && (#[trigger] es[j]).0 == k;
            assert(es.drop_first()[j - 1].0 == k);
            lemma_vocab_value_from_entries(es.drop_first(), m, k);
        }
    }
}

/// What parsing a JSON vocabulary object returns: nothing when the text is
/// not a JSON object of token strings to unsigned 32-bit ids, else the
/// key-to-id map.  The result depends on the text alone.
pub uninterp spec fn parsed_vocab(s: Seq<char>) -> Option<Map<Seq<char>, u32>>;

/// Relies on serde_json::from_str: parsing a JSON object of token strings to
/// unsigned ids succeeds on a fixed set of texts (named `parsed_vocab`), and
/// the parsed pairs carry distinct keys, in no promised order.  A failure
/// carries serde_json's own message.
#[verifier::external_body]
fn parse_vocab_json(s: &str) -> (r: Result<Vec<(String, u32)>, String>)
    ensures
        r is Ok <==> parsed_vocab(s@) is Some,
        r matches Ok(es) ==> ({
            let m = parsed_vocab(s@)->0;
            &&& m.dom().finite()
            &&& es@.len() == m.dom().len()
            &&& forall|a: int, b: int|
                0 <= a < b < es@.len() ==> (#[trigger] es@[a]).0@ != (#[trigger] es@[b]).0@
            &&& forall|a: int|
                0 <= a < es@.len() ==> m.contains_key((#[trigger] es@[a]).0@) && m[es@[a].0@]
                    == es@[a].1
            &&& forall|k: Seq<char>| #[trigger]
                m.contains_key(k) ==> exists|a: int|
                    0 <= a < es@.len() && (#[trigger] es@[a]).0@ == k
        }),
{
    match serde_json::from_str::<std::collections::HashMap<String, u32>>(s) {
        Ok(m) => Ok(m.into_iter().collect()),
        Err(e) => Err(e.to_string()),
    }
}

/// Relies on std's str::from_utf8: it succeeds exactly on valid UTF-8 input
/// and returns the text that decodes those bytes.  A failure carries the
/// error's own message.
#[verifier::external_body]
fn utf8_from_bytes(data: &[u8]) -> (r: Result<&str, String>)
    ensures
        r is Ok <==> vstd::utf8::valid_utf8(data@),
        r matches Ok(s) ==> s@ == vstd::utf8::decode_utf8(data@),
{
    match std::str::from_utf8(data) {
        Ok(s) => Ok(s),
        Err(e) => Err(e.to_string()),
    }
}

/// Relies on std's String::from for char: the one-character string.
#[verifier::external_body]
fn char_to_string(c: char) -> (r: String)
    ensures
        r@ == seq![c],
{
    String::from(c)
}

/// The reverse-mapping slot for `id` holds some entry's token with that id,
/// or stays empty when no entry has that id.
pub open spec fn slot_ok(es: Seq<(Seq<char>, u32)>, tok: Seq<char>, id: int) -> bool {
    if exists|j: int| 0 <= j < es.len() && (#[trigger] es[j]).1 == id {
        exists|j: int| 0 <= j < es.len() && (#[trigger] es[j]).0 == tok && es[j].1 == id
    } else {
        tok == Seq::<char>::empty()
    }
}

/// The characters the minimal vocabulary maps one by one.
pub open spec fn minimal_alphabet() -> Seq<char> {
    seq![
        'a', 'b', 'c', 'd', 'e', 'f', 'g', 'h', 'i', 'j', 'k', 'l', 'm', 'n', 'o', 'p', 'q', 'r',
        's', 't', 'u', 'v', 'w', 'x', 'y', 'z', 'A', 'B', 'C', 'D', 'E', 'F', 'G', 'H', 'I', 'J',
        'K', 'L', 'M', 'N', 'O', 'P', 'Q', 'R', 'S', 'T', 'U', 'V', 'W', 'X', 'Y', 'Z', '0', '1',
        '2', '3', '4', '5', '6', '7', '8', '9', '.', ',', '!', '?',
    ]
}

fn minimal_alphabet_chars() -> (r: Vec<char>)
    ensures
        r@ == minimal_alphabet(),
{
    let r: Vec<char> = vec![
        'a', 'b', 'c', 'd', 'e', 'f', 'g', 'h', 'i', 'j', 'k', 'l', 'm', 'n', 'o', 'p', 'q', 'r',
        's', 't', 'u', 'v', 'w', 'x', 'y', 'z', 'A', 'B', 'C', 'D', 'E', 'F', 'G', 'H', 'I', 'J',
        'K', 'L', 'M', 'N', 'O', 'P', 'Q', 'R', 'S', 'T', 'U', 'V', 'W', 'X', 'Y', 'Z', '0', '1',
        '2', '3', '4', '5', '6', '7', '8', '9', '.', ',', '!', '?',
    ];
    proof {
        assert(r@ =~= minimal_alphabet());
    }
    r
}

/// Wrapper for the tokenizer.
#[derive(Debug)]
pub struct PocketTokenizer {
    entries: Vec<(String, u32)>,
    id_to_token: Vec<String>,
    bos_id: Option<u32>,
    eos_id: Option<u32>,
    pad_id: Option<u32>,
    unk_id: u32,
}

impl PocketTokenizer {
    /// The vocabulary: token text to token id.
    pub closed spec fn vocab(self) -> Map<Seq<char>, u32> {
        entries_vocab(self.entries@.map_values(|e: (String, u32)| (e.0@, e.1)))
    }

    /// The reverse mapping: token id to token text.
    pub closed spec fn token_list(self) -> Seq<Seq<char>> {
        self.id_to_token@.map_values(|s: String| s@)
    }

    /// The beginning-of-sequence id, when the vocabulary has one.
    pub closed spec fn bos(self) -> Option<u32> {
        self.bos_id
    }

    /// The end-of-sequence id, when the vocabulary has one.
    pub closed spec fn eos(self) -> Option<u32> {
        self.eos_id
    }

    /// The padding id, when the vocabulary has one.
    pub closed spec fn pad(self) -> Option<u32> {
        self.pad_id
    }

    /// The id emitted for unknown characters.
    pub closed spec fn unk(self) -> u32 {
        self.unk_id
    }

    /// How many entries the vocabulary holds.
    pub closed spec fn num_entries(self) -> nat {
        self.entries@.len()
    }

    /// Get vocabulary size.
    pub fn vocab_size(&self) -> (n: usize)
        ensures
            n == self.num_entries(),
    {
        self.entries.len()
    }

    /// Get the beginning-of-sequence token id.
    pub fn bos_token_id(&self) -> (r: Option<u32>)
        ensures
            r == self.bos(),
    {
        self.bos_id
    }

    /// Get the end-of-sequence token id.
    pub fn eos_token_id(&self) -> (r: Option<u32>)
        ensures
            r == self.eos(),
    {
        self.eos_id
    }

    /// Get the padding token id.
    pub fn pad_token_id(&self) -> (r: Option<u32>)
        ensures
            r == self.pad(),
    {
        self.pad_id
    }

    /// Does a token string equal the characters `cs[start..end]`?
    fn str_matches_range(s: &String, cs: &Vec<char>, start: usize, end: usize) -> (r: bool)
        requires
            start <= end <= cs@.len(),
        ensures
            r <==> s@ == cs@.subrange(start as int, end as int),
    {
        let mut it = s.as_str().chars();
        let mut j: usize = start;
        loop
            invariant
                start <= j <= end <= cs@.len(),
                it.obeys_prophetic_iter_laws(),
                it.decrease() is Some,
                s@ == cs@.subrange(start as int, j as int) + it.remaining(),
            decreases it.decrease()->0,
        {
            let ghost prev = it;
            match it.next() {
                Some(c) => {
                    if j >= end {
                        assert(s@.len() > end - start);
                        assert(s@ != cs@.subrange(start as int, end as int));
                        return false;
                    }
                    if cs[j] != c {
                        assert(s@[j - start] == c);
                        assert(cs@.subrange(start as int, end as int)[j - start] == cs@[j as int]);
                        assert(s@ != cs@.subrange(start as int, end as int));
                        return false;
                    }
                    proof {
                        assert(cs@.subrange(start as int, j + 1) =~= cs@.subrange(
                            start as int,
                            j as int,
                        ).push(c));
                        assert(cs@.subrange(start as int, j + 1) + it.remaining() =~= cs@.subrange(
                            start as int,
                            j as int,
                        ) + prev.remaining());
                    }
                    j = j + 1;
                },
                None => {
                    proof {
                        assert(s@ =~= cs@.subrange(start as int, j as int));
                        if j < end {
                            assert(s@.len() < end - start);
                        }
                    }
                    return j == end;
                },
            }
        }
    }

    /// Look the characters `cs[start..end]` up in the vocabulary.
    fn lookup_range(&self, cs: &Vec<char>, start: usize, end: usize) -> (r: Option<u32>)
        requires
            start <= end <= cs@.len(),
        ensures
            r is Some <==> self.vocab().contains_key(cs@.subrange(start as int, end as int)),
            r is Some ==> r->0 == self.vocab()[cs@.subrange(start as int, end as int)],
    {
        let ghost key = cs@.subrange(start as int, end as int);
        let ghost ses = self.entries@.map_values(|e: (String, u32)| (e.0@, e.1));
        proof {
            assert(ses.skip(0) =~= ses);
        }
        let mut i: usize = 0;
        while i < self.entries.len()
            invariant
                i <= self.entries@.len(),
                ses == self.entries@.map_values(|e: (String, u32)| (e.0@, e.1)),
                key == cs@.subrange(start as int, end as int),
                start <= end <= cs@.len(),
                entries_lookup(ses, key) == entries_lookup(ses.skip(i as int), key),
            decreases self.entries@.len() - i,
        {
            proof {
                assert(ses.skip(i as int).first() == (self.entries@[i as int].0@,
                self.entries@[i as int].1));
                assert(ses.skip(i as int).drop_first() =~= ses.skip(i + 1));
            }
            if Self::str_matches_range(&self.entries[i].0, cs, start, end) {
                proof {
                    lemma_entries_lookup_is_vocab(ses, key);
                }
                return Some(self.entries[i].1);
            }
            i = i + 1;
        }
        proof {
            assert(ses.skip(i as int).len() == 0);
            lemma_entries_lookup_is_vocab(ses, key);
        }
        None
    }

    /// Find the longest vocabulary match of `cs[i..]` with length at most
    /// `max_l`, together with its id.
    fn longest_match(&self, cs: &Vec<char>, i: usize, max_l: usize) -> (r: Option<(usize, u32)>)
        requires
            i < cs@.len(),
            1 <= max_l,
            i + max_l <= cs@.len(),
        ensures
            ({
                let l = best_match(self.vocab(), cs@, i as int, max_l as int);
                if l > 0 {
                    r matches Some(m) && m.0 == l && m.1 == self.vocab()[cs@.subrange(
                        i as int,
                        i + l,
                    )]
                } else {
                    r is None
                }
            }),
    {
        let n = cs.len();
        let mut l: usize = max_l;
        loop
            invariant
                1 <= l <= max_l,
                i + max_l <= cs@.len(),
                i < cs@.len(),
                n == cs@.len(),
                best_match(self.vocab(), cs@, i as int, max_l as int) == best_match(
                    self.vocab(),
                    cs@,
                    i as int,
                    l as int,
                ),
            decreases l,
        {
            match self.lookup_range(cs, i, i + l) {
                Some(id) => {
                    return Some((l, id));
                },
                None => {
                    if l == 1 {
                        proof {
                            assert(best_match(self.vocab(), cs@, i as int, 0) == 0);
                            assert(best_match(self.vocab(), cs@, i as int, 1) == 0);
                        }
                        return None;
                    }
                    l = l - 1;
                },
            }
        }
    }

    /// Encode text to token ids: greedy longest match with single-character
    /// fallback; unknown characters degrade to the unknown id, so encoding
    /// never fails.
    pub fn encode(&self, text: &str) -> (r: Result<Vec<u32>, PocketTTSError>)
        ensures
            r is Ok,
            r->Ok_0@ == spec_encode(self.vocab(), self.bos(), self.eos(), self.unk(), text@),
    {
        let ghost v = self.vocab();
        let mut tokens: Vec<u32> = Vec::new();

        if let Some(b) = self.bos_id {
            tokens.push(b);
        }
        proof {
            assert(tokens@ =~= opt_id(self.bos()));
        }

        let mut cs: Vec<char> = Vec::new();
        let mut it = text.chars();
        loop
            invariant
                it.obeys_prophetic_iter_laws(),
                it.decrease() is Some,
                text@ == cs@ + it.remaining(),
            ensures
                cs@ == text@,
            decreases it.decrease()->0,
        {
            match it.next() {
                Some(c) => {
                    cs.push(c);
                },
                None => {
                    proof {
                        assert(text@ =~= cs@);
                    }
                    break ;
                },
            }
        }

        let mut i: usize = 0;
        while i < cs.len()
            invariant
                i <= cs@.len(),
                cs@ == text@,
                v == self.vocab(),
                opt_id(self.bos()) + spec_encode_from(v, self.unk(), text@, 0) == tokens@
                    + spec_encode_from(v, self.unk(), text@, i as int),
            decreases cs@.len() - i,
        {
            let rest = cs.len() - i;
            let max_l: usize = if rest < 10 {
                rest
            } else {
                10
            };
            let ghost pre = tokens@;
            let ghost l = best_match(v, cs@, i as int, max_l as int);
            proof {
                lemma_best_match_bounds(v, cs@, i as int, max_l as int);
            }
            let mut step: usize = 1;
            match self.longest_match(&cs, i, max_l) {
                Some((len, id)) => {
                    tokens.push(id);
                    step = len;
                    proof {
                        assert(spec_encode_from(v, self.unk(), text@, i as int) == seq![id]
                            + spec_encode_from(v, self.unk(), text@, i + l));
                        assert(pre + (seq![id] + spec_encode_from(v, self.unk(), text@, i + l))
                            =~= pre.push(id) + spec_encode_from(v, self.unk(), text@, i + l));
                    }
                },
                None => {
                    tokens.push(self.unk_id);
                    proof {
                        assert(spec_encode_from(v, self.unk(), text@, i as int) == seq![self.unk()]
                            + spec_encode_from(v, self.unk(), text@, i + 1));
                        assert(pre + (seq![self.unk()] + spec_encode_from(
                            v,
                            self.unk(),
                            text@,
                            i + 1,
                        )) =~= pre.push(self.unk()) + spec_encode_from(
                            v,
                            self.unk(),
                            text@,
                            i + 1,
                        ));
                    }
                },
            }
            i = i + step;
        }

        if let Some(e) = self.eos_id {
            tokens.push(e);
        }
        proof {
            assert(spec_encode_from(v, self.unk(), text@, cs@.len() as int)
                =~= Seq::<u32>::empty());
            assert(tokens@ =~= opt_id(self.bos()) + spec_encode_from(v, self.unk(), text@, 0)
                + opt_id(self.eos()));
        }
        Ok(tokens)
    }

    /// Decode token ids back to text, skipping sentinel ids and substituting
    /// the replacement marker for ids outside the vocabulary.
    pub fn decode(&self, ids: &[u32]) -> (r: Result<String, PocketTTSError>)
        ensures
            r is Ok,
            r->Ok_0@ == spec_decode(self.token_list(), self.bos(), self.eos(), self.pad(), ids@),
    {
        let ghost toks = self.token_list();
        let mut text = String::new();
        let mut j: usize = 0;
        while j < ids.len()
            invariant
                j <= ids@.len(),
                toks == self.token_list(),
                spec_decode_from(toks, self.bos(), self.eos(), self.pad(), ids@, 0) == text@
                    + spec_decode_from(toks, self.bos(), self.eos(), self.pad(), ids@, j as int),
            decreases ids@.len() - j,
        {
            let id = ids[j];
            let is_bos = match self.bos_id {
                Some(b) => id == b,
                None => false,
            };
            let is_eos = match self.eos_id {
                Some(e) => id == e,
                None => false,
            };
            let is_pad = match self.pad_id {
                Some(p) => id == p,
                None => false,
            };
            let ghost pre = text@;
            let ghost head = if is_sentinel(self.bos(), self.eos(), self.pad(), ids@[j as int]) {
                Seq::<char>::empty()
            } else if ids@[j as int] < toks.len() {
                toks[ids@[j as int] as int]
            } else {
                seq!['\u{FFFD}']
            };
            if !(is_bos || is_eos || is_pad) {
                if (id as usize) < self.id_to_token.len() {
                    text.append(self.id_to_token[id as usize].as_str());
                } else {
                    text.append("\u{FFFD}");
                    proof {
                        reveal_strlit("\u{FFFD}");
                        assert("\u{FFFD}"@ =~= seq!['\u{FFFD}']);
                    }
                }
            }
            proof {
                assert(text@ =~= pre + head);
                assert(spec_decode_from(toks, self.bos(), self.eos(), self.pad(), ids@, j as int)
                    == head + spec_decode_from(
                    toks,
                    self.bos(),
                    self.eos(),
                    self.pad(),
                    ids@,
                    j + 1,
                ));
                assert(pre + (head + spec_decode_from(
                    toks,
                    self.bos(),
                    self.eos(),
                    self.pad(),
                    ids@,
                    j + 1,
                )) =~= (pre + head) + spec_decode_from(
                    toks,
                    self.bos(),
                    self.eos(),
                    self.pad(),
                    ids@,
                    j + 1,
                ));
            }
            j = j + 1;
        }
        Ok(text)
    }

    /// Look a whole token string up in an entry list.
    fn lookup_token(entries: &Vec<(String, u32)>, key: &str) -> (r: Option<u32>)
        ensures
            r == opt_lookup(
                entries_vocab(entries@.map_values(|e: (String, u32)| (e.0@, e.1))),
                key@,
            ),
    {
        let k = String::from_str(key);
        let ghost ses = entries@.map_values(|e: (String, u32)| (e.0@, e.1));
        proof {
            assert(ses.skip(0) =~= ses);
        }
        let mut i: usize = 0;
        while i < entries.len()
            invariant
                i <= entries@.len(),
                ses == entries@.map_values(|e: (String, u32)| (e.0@, e.1)),
                k@ == key@,
                entries_lookup(ses, key@) == entries_lookup(ses.skip(i as int), key@),
            decreases entries@.len() - i,
        {
            proof {
                assert(ses.skip(i as int).first() == (entries@[i as int].0@,
                entries@[i as int].1));
                assert(ses.skip(i as int).drop_first() =~= ses.skip(i + 1));
            }
            if entries[i].0 == k {
                proof {
                    lemma_entries_lookup_is_vocab(ses, key@);
                }
                return Some(entries[i].1);
            }
            i = i + 1;
        }
        proof {
            assert(ses.skip(i as int).len() == 0);
            lemma_entries_lookup_is_vocab(ses, key@);
        }
        None
    }

    /// The token text for one id slot of the reverse mapping: the first entry
    /// carrying the id, or the empty string.
    fn find_token_for_id(entries: &Vec<(String, u32)>, id: usize) -> (r: String)
        ensures
            slot_ok(entries@.map_values(|e: (String, u32)| (e.0@, e.1)), r@, id as int),
    {
        let ghost ses = entries@.map_values(|e: (String, u32)| (e.0@, e.1));
        let mut j: usize = 0;
        while j < entries.len()
            invariant
                j <= entries@.len(),
                ses == entries@.map_values(|e: (String, u32)| (e.0@, e.1)),
                forall|a: int| 0 <= a < j ==> (#[trigger] ses[a]).1 != id as int,
            decreases entries@.len() - j,
        {
            if entries[j].1 as usize == id {
                let tok = entries[j].0.clone();
                proof {
                    assert(ses[j as int].0 == tok@ && ses[j as int].1 == id as int);
                }
                return tok;
            }
            j = j + 1;
        }
        String::new()
    }

    /// Build a tokenizer from vocabulary entries; the sentinel and unknown
    /// ids come from the conventional token strings.
    fn from_entries(entries: Vec<(String, u32)>) -> (t: PocketTokenizer)
        ensures
            ({
                let es = entries@.map_values(|e: (String, u32)| (e.0@, e.1));
                let v = entries_vocab(es);
                &&& t.vocab() == v
                &&& t.num_entries() == entries@.len()
                &&& t.bos() == opt_lookup(v, "<s>"@)
                &&& t.eos() == opt_lookup(v, "</s>"@)
                &&& t.pad() == opt_lookup(v, "<pad>"@)
                &&& t.unk() == (if v.contains_key("<unk>"@) {
                    v["<unk>"@]
                } else {
                    0u32
                })
                &&& t.token_list().len() == entries@.len()
                &&& forall|id: int|
                    0 <= id < entries@.len() ==> slot_ok(es, #[trigger] t.token_list()[id], id)
            }),
    {
        let ghost ses = entries@.map_values(|e: (String, u32)| (e.0@, e.1));
        let n = entries.len();
        let mut id_to_token: Vec<String> = Vec::new();
        let mut id: usize = 0;
        while id < n
            invariant
                id <= n,
                n == entries@.len(),
                ses == entries@.map_values(|e: (String, u32)| (e.0@, e.1)),
                id_to_token@.len() == id,
                forall|k: int| 0 <= k < id ==> slot_ok(ses, (#[trigger] id_to_token@[k])@, k),
            decreases n - id,
        {
            let tok = Self::find_token_for_id(&entries, id);
            id_to_token.push(tok);
            id = id + 1;
        }
        let bos_id = Self::lookup_token(&entries, "<s>");
        let eos_id = Self::lookup_token(&entries, "</s>");
        let pad_id = Self::lookup_token(&entries, "<pad>");
        let unk_id = match Self::lookup_token(&entries, "<unk>") {
            Some(u) => u,
            None => 0,
        };
        let t = PocketTokenizer { entries, id_to_token, bos_id, eos_id, pad_id, unk_id };
        proof {
            assert(t.token_list().len() == n);
            assert(forall|id: int|
                0 <= id < n ==> #[trigger] t.token_list()[id] == (id_to_token@[id])@);
        }
        t
    }

    /// Load tokenizer from bytes (for bundled models): the bytes must be
    /// UTF-8 text holding a JSON object from token strings to ids.
    pub fn from_bytes(data: &[u8]) -> (r: Result<PocketTokenizer, PocketTTSError>)
        ensures
            r is Ok <==> (vstd::utf8::valid_utf8(data@) && parsed_vocab(
                vstd::utf8::decode_utf8(data@),
            ) is Some),
            r matches Ok(t) ==> ({
                let m = parsed_vocab(vstd::utf8::decode_utf8(data@))->0;
                &&& t.vocab() == m
                &&& t.num_entries() == m.dom().len()
                &&& t.bos() == opt_lookup(m, "<s>"@)
                &&& t.eos() == opt_lookup(m, "</s>"@)
                &&& t.pad() == opt_lookup(m, "<pad>"@)
                &&& t.unk() == (if m.contains_key("<unk>"@) {
                    m["<unk>"@]
                } else {
                    0u32
                })
                &&& t.token_list().len() == t.num_entries()
                &&& forall|id: int|
                    0 <= id < t.token_list().len() ==> ((exists|k: Seq<char>| #[trigger]
                        m.contains_key(k) && m[k] == id) ==> m.contains_key(
                        #[trigger] t.token_list()[id],
                    ) && m[t.token_list()[id]] == id)
            }),
            r matches Err(e) ==> e is TokenizationFailed,
    {
        let s = match utf8_from_bytes(data) {
            Ok(s) => s,
            Err(e) => {
                return Err(
                    PocketTTSError::TokenizationFailed(
                        String::from_str("Invalid UTF-8: ").concat(e.as_str()),
                    ),
                );
            },
        };
        let entries = match parse_vocab_json(s) {
            Ok(es) => es,
            Err(e) => {
                return Err(
                    PocketTTSError::TokenizationFailed(
                        String::from_str("Invalid vocab JSON: ").concat(e.as_str()),
                    ),
                );
            },
        };
        let ghost raw = entries@;
        let ghost ses = entries@.map_values(|e: (String, u32)| (e.0@, e.1));
        let ghost m = parsed_vocab(vstd::utf8::decode_utf8(data@))->0;
        let t = Self::from_entries(entries);
        proof {
            assert forall|j: int|
                0 <= j < ses.len() implies m.contains_key((#[trigger] ses[j]).0) && m[ses[j].0]
                == ses[j].1 by {
                assert(ses[j] == (raw[j].0@, raw[j].1));
            }
            assert forall|k: Seq<char>| #[trigger]
                m.contains_key(k) implies exists|j: int|
                0 <= j < ses.len() && (#[trigger] ses[j]).0 == k by {
                let a = choose|a: int| 0 <= a < raw.len() && (#[trigger] raw[a]).0@ == k;
                assert(ses[a].0 == k);
            }
            lemma_vocab_of_map_entries(ses, m);
            assert forall|id: int|
                0 <= id < t.token_list().len() && (exists|k: Seq<char>| #[trigger]
                    m.contains_key(k) && m[k] == id) implies m.contains_key(
                #[trigger] t.token_list()[id],
            ) && m[t.token_list()[id]] == id by {
                let k = choose|k: Seq<char>| #[trigger] m.contains_key(k) && m[k] == id;
                let a = choose|a: int| 0 <= a < ses.len() && (#[trigger] ses[a]).0 == k;
                assert(ses[a].1 == id);
                assert(slot_ok(ses, t.token_list()[id], id));
                let j = choose|j: int|
                    0 <= j < ses.len() && (#[trigger] ses[j]).0 == t.token_list()[id] && ses[j].1
                        == id;
            }
        }
        Ok(t)
    }

    /// Create a minimal tokenizer with a built-in vocabulary: the sentinel
    /// tokens, the space, and a basic alphabet one character at a time.
    /// (For testing when no vocabulary file is available.)
    pub fn minimal() -> (t: PocketTokenizer)
        ensures
            t.bos() == Some(1u32),
            t.eos() == Some(2u32),
            t.pad() == Some(3u32),
            t.unk() == 0u32,
            t.num_entries() == 71,
            t.vocab().contains_key("<unk>"@) && t.vocab()["<unk>"@] == 0,
            t.vocab().contains_key("<s>"@) && t.vocab()["<s>"@] == 1,
            t.vocab().contains_key("</s>"@) && t.vocab()["</s>"@] == 2,
            t.vocab().contains_key("<pad>"@) && t.vocab()["<pad>"@] == 3,
            t.vocab().contains_key(" "@) && t.vocab()[" "@] == 4,
            forall|i: int|
                0 <= i < minimal_alphabet().len() ==> t.vocab().contains_key(
                    seq![minimal_alphabet()[i]],
                ),
    {
        let mut entries: Vec<(String, u32)> = Vec::new();
        entries.push((String::from_str("<unk>"), 0));
        entries.push((String::from_str("<s>"), 1));
        entries.push((String::from_str("</s>"), 2));
        entries.push((String::from_str("<pad>"), 3));
        entries.push((String::from_str(" "), 4));
        let ghost specials = entries@;
        let alpha = minimal_alphabet_chars();
        let mut i: usize = 0;
        while i < alpha.len()
            invariant
                i <= alpha@.len(),
                alpha@ == minimal_alphabet(),
                entries@.len() == 5 + i,
                entries@.take(5) == specials,
                specials.len() == 5,
                specials[0].0@ == "<unk>"@ && specials[0].1 == 0,
                specials[1].0@ == "<s>"@ && specials[1].1 == 1,
                specials[2].0@ == "</s>"@ && specials[2].1 == 2,
                specials[3].0@ == "<pad>"@ && specials[3].1 == 3,
                specials[4].0@ == " "@ && specials[4].1 == 4,
                forall|j: int|
                    0 <= j < i ==> (#[trigger] entries@[5 + j]).0@ == seq![minimal_alphabet()[j]]
                        && entries@[5 + j].1 == 5 + j,
            decreases alpha@.len() - i,
        {
            let ghost pre = entries@;
            entries.push((char_to_string(alpha[i]), (5 + i) as u32));
            proof {
                assert(entries@.take(5) =~= pre.take(5));
            }
            i = i + 1;
        }
        let ghost ses = entries@.map_values(|e: (String, u32)| (e.0@, e.1));
        let t = Self::from_entries(entries);
        proof {
            reveal_strlit("<unk>");
            reveal_strlit("<s>");
            reveal_strlit("</s>");
            reveal_strlit("<pad>");
            reveal_strlit(" ");
            lemma_minimal_specials(ses);
            assert forall|k: int|
                0 <= k < minimal_alphabet().len() implies t.vocab().contains_key(
                seq![minimal_alphabet()[k]],
            ) by {
                assert(ses[5 + k].0 == seq![minimal_alphabet()[k]]);
                lemma_vocab_key_iff_entry(ses, seq![minimal_alphabet()[k]]);
            }
        }
        t
    }
}

proof fn lemma_decode_from_shift(
    toks: Seq<Seq<char>>,
    bos: Option<u32>,
    eos: Option<u32>,
    pad: Option<u32>,
    a: Seq<u32>,
    b: Seq<u32>,
    t: int,
)
    requires
        0 <= t <= b.len(),
    ensures
        spec_decode_from(toks, bos, eos, pad, a + b, a.len() + t) == spec_decode_from(
            toks,
            bos,
            eos,
            pad,
            b,
            t,
        ),
    decreases b.len() - t,
{
    if t < b.len() {
        assert((a + b)[a.len() + t] == b[t]);
        lemma_decode_from_shift(toks, bos, eos, pad, a, b, t + 1);
    }
}

/// Decoding distributes over concatenation of id sequences.
proof fn lemma_decode_from_concat(
    toks: Seq<Seq<char>>,
    bos: Option<u32>,
    eos: Option<u32>,
    pad: Option<u32>,
    a: Seq<u32>,
    b: Seq<u32>,
    k: int,
)
    requires
        0 <= k <= a.len(),
    ensures
        spec_decode_from(toks, bos, eos, pad, a + b, k) == spec_decode_from(toks, bos, eos, pad, a, k)
            + spec_decode_from(toks, bos, eos, pad, b, 0),
    decreases a.len() - k,
{
    if k == a.len() {
        lemma_decode_from_shift(toks, bos, eos, pad, a, b, 0);
        assert(spec_decode_from(toks, bos, eos, pad, a, k) =~= Seq::<char>::empty());
        assert(Seq::<char>::empty() + spec_decode_from(toks, bos, eos, pad, b, 0)
            =~= spec_decode_from(toks, bos, eos, pad, b, 0));
    } else {
        lemma_decode_from_concat(toks, bos, eos, pad, a, b, k + 1);
        assert((a + b)[k] == a[k]);
        let head = if is_sentinel(bos, eos, pad, a[k]) {
            Seq::<char>::empty()
        } else if a[k] < toks.len() {
            toks[a[k] as int]
        } else {
            seq!['\u{FFFD}']
        };
        assert(head + (spec_decode_from(toks, bos, eos, pad, a, k + 1) + spec_decode_from(
            toks,
            bos,
            eos,
            pad,
            b,
            0,
        )) =~= (head + spec_decode_from(toks, bos, eos, pad, a, k + 1)) + spec_decode_from(
            toks,
            bos,
            eos,
            pad,
            b,
            0,
        ));
    }
}

/// When the text's character at `i` is a vocabulary key, the greedy match
/// finds a length of at least one.
proof fn lemma_best_match_found(v: Map<Seq<char>, u32>, text: Seq<char>, i: int, max_l: int)
    requires
        1 <= max_l,
        v.contains_key(text.subrange(i, i + 1)),
    ensures
        1 <= best_match(v, text, i, max_l) <= max_l,
    decreases max_l,
{
    if max_l > 1 && !v.contains_key(text.subrange(i, i + max_l)) {
        lemma_best_match_found(v, text, i, max_l - 1);
    }
}

/// A positive greedy match length points at a vocabulary key.
proof fn lemma_best_match_contains(v: Map<Seq<char>, u32>, text: Seq<char>, i: int, max_l: int)
    requires
        best_match(v, text, i, max_l) > 0,
    ensures
        v.contains_key(text.subrange(i, i + best_match(v, text, i, max_l))),
    decreases max_l,
{
    if max_l > 0 && !v.contains_key(text.subrange(i, i + max_l)) {
        lemma_best_match_contains(v, text, i, max_l - 1);
    }
}

/// Decoding a single id gives its token text, nothing for a sentinel, or the
/// replacement marker.
proof fn lemma_decode_single(
    toks: Seq<Seq<char>>,
    bos: Option<u32>,
    eos: Option<u32>,
    pad: Option<u32>,
    id: u32,
)
    ensures
        spec_decode(toks, bos, eos, pad, seq![id]) == (if is_sentinel(bos, eos, pad, id) {
            Seq::<char>::empty()
        } else if id < toks.len() {
            toks[id as int]
        } else {
            seq!['\u{FFFD}']
        }),
{
    let ids = seq![id];
    assert(spec_decode_from(toks, bos, eos, pad, ids, 1) == Seq::<char>::empty());
    let head = if is_sentinel(bos, eos, pad, id) {
        Seq::<char>::empty()
    } else if id < toks.len() {
        toks[id as int]
    } else {
        seq!['\u{FFFD}']
    };
    assert(spec_decode_from(toks, bos, eos, pad, ids, 0) == head + spec_decode_from(
        toks,
        bos,
        eos,
        pad,
        ids,
        1,
    ));
    assert(head + Seq::<char>::empty() =~= head);
}

/// Round trip from position `i` on: decoding the greedy encoding of
/// `text[i..]` gives `text[i..]` back.
proof fn lemma_roundtrip_from(
    v: Map<Seq<char>, u32>,
    toks: Seq<Seq<char>>,
    bos: Option<u32>,
    eos: Option<u32>,
    pad: Option<u32>,
    unk: u32,
    text: Seq<char>,
    i: int,
)
    requires
        0 <= i <= text.len(),
        forall|j: int| 0 <= j < text.len() ==> #[trigger] v.contains_key(seq![text[j]]),
        forall|a: int, b: int|
            0 <= a < b <= text.len() && #[trigger] v.contains_key(text.subrange(a, b)) ==> ({
                let id = v[text.subrange(a, b)];
                &&& !is_sentinel(bos, eos, pad, id)
                &&& id < toks.len()
                &&& toks[id as int] == text.subrange(a, b)
            }),
    ensures
        spec_decode(toks, bos, eos, pad, spec_encode_from(v, unk, text, i)) == text.subrange(
            i,
            text.len() as int,
        ),
    decreases text.len() - i,
{
    if i == text.len() {
        assert(spec_decode(toks, bos, eos, pad, spec_encode_from(v, unk, text, i))
            =~= text.subrange(i, text.len() as int));
    } else {
        let max_l = if text.len() - i < 10 {
            text.len() - i
        } else {
            10
        };
        assert(v.contains_key(seq![text[i]]));
        assert(text.subrange(i, i + 1) =~= seq![text[i]]);
        lemma_best_match_found(v, text, i, max_l);
        lemma_best_match_contains(v, text, i, max_l);
        let l = best_match(v, text, i, max_l);
        let sub = text.subrange(i, i + l);
        let id = v[sub];
        let rest = spec_encode_from(v, unk, text, i + l);
        assert(spec_encode_from(v, unk, text, i) == seq![id] + rest);
        lemma_decode_from_concat(toks, bos, eos, pad, seq![id], rest, 0);
        assert(v.contains_key(text.subrange(i, i + l)));
        assert(!is_sentinel(bos, eos, pad, id) && id < toks.len() && toks[id as int] == sub);
        lemma_decode_single(toks, bos, eos, pad, id);
        lemma_roundtrip_from(v, toks, bos, eos, pad, unk, text, i + l);
        assert(toks[id as int] + text.subrange(i + l, text.len() as int) =~= text.subrange(
            i,
            text.len() as int,
        ));
    }
}

/// Law: decoding reproduces an encoded text exactly, whenever the vocabulary
/// has a key for each of the text's characters, the reverse mapping inverts
/// the vocabulary on the text's substrings, and no id of such a substring is
/// a sentinel id.
pub proof fn lemma_encode_decode_roundtrip(
    v: Map<Seq<char>, u32>,
    toks: Seq<Seq<char>>,
    bos: Option<u32>,
    eos: Option<u32>,
    pad: Option<u32>,
    unk: u32,
    text: Seq<char>,
)
    requires
        forall|j: int| 0 <= j < text.len() ==> #[trigger] v.contains_key(seq![text[j]]),
        forall|a: int, b: int|
            0 <= a < b <= text.len() && #[trigger] v.contains_key(text.subrange(a, b)) ==> ({
                let id = v[text.subrange(a, b)];
                &&& !is_sentinel(bos, eos, pad, id)
                &&& id < toks.len()
                &&& toks[id as int] == text.subrange(a, b)
            }),
    ensures
        spec_decode(toks, bos, eos, pad, spec_encode(v, bos, eos, unk, text)) == text,
{
    let body = spec_encode_from(v, unk, text, 0);
    assert(spec_encode(v, bos, eos, unk, text) == (opt_id(bos) + body) + opt_id(eos));
    lemma_decode_from_concat(toks, bos, eos, pad, opt_id(bos) + body, opt_id(eos), 0);
    lemma_decode_from_concat(toks, bos, eos, pad, opt_id(bos), body, 0);
    match bos {
        Some(b) => {
            lemma_decode_single(toks, bos, eos, pad, b);
            assert(is_sentinel(bos, eos, pad, b));
        },
        None => {},
    }
    match eos {
        Some(e) => {
            lemma_decode_single(toks, bos, eos, pad, e);
            assert(is_sentinel(bos, eos, pad, e));
        },
        None => {},
    }
    assert(spec_decode_from(toks, bos, eos, pad, opt_id(bos), 0) =~= Seq::<char>::empty());
    assert(spec_decode_from(toks, bos, eos, pad, opt_id(eos), 0) =~= Seq::<char>::empty());
    lemma_roundtrip_from(v, toks, bos, eos, pad, unk, text, 0);
    assert(text.subrange(0, text.len() as int) =~= text);
    assert(spec_decode(toks, bos, eos, pad, spec_encode(v, bos, eos, unk, text)) =~= text);
}

/// The first five entries of the minimal vocabulary decide the sentinel ids:
/// their keys differ pairwise, so the first-entry-wins vocabulary maps each
/// to its own id.
proof fn lemma_minimal_specials(es: Seq<(Seq<char>, u32)>)
    requires
        es.len() >= 5,
        es[0].0 == "<unk>"@ && es[0].1 == 0,
        es[1].0 == "<s>"@ && es[1].1 == 1,
        es[2].0 == "</s>"@ && es[2].1 == 2,
        es[3].0 == "<pad>"@ && es[3].1 == 3,
        es[4].0 == " "@ && es[4].1 == 4,
    ensures
        entries_vocab(es).contains_key("<unk>"@) && entries_vocab(es)["<unk>"@] == 0,
        entries_vocab(es).contains_key("<s>"@) && entries_vocab(es)["<s>"@] == 1,
        entries_vocab(es).contains_key("</s>"@) && entries_vocab(es)["</s>"@] == 2,
        entries_vocab(es).contains_key("<pad>"@) && entries_vocab(es)["<pad>"@] == 3,
        entries_vocab(es).contains_key(" "@) && entries_vocab(es)[" "@] == 4,
{
    reveal_strlit("<unk>");
    reveal_strlit("<s>");
    reveal_strlit("</s>");
    reveal_strlit("<pad>");
    reveal_strlit(" ");
    let e1 = es.drop_first();
    let e2 = e1.drop_first();
    let e3 = e2.drop_first();
    let e4 = e3.drop_first();
    assert(e1[0] == es[1] && e1[1] == es[2] && e1[2] == es[3] && e1[3] == es[4]);
    assert(e2[0] == es[2] && e2[1] == es[3] && e2[2] == es[4]);
    assert(e3[0] == es[3] && e3[1] == es[4]);
    assert(e4[0] == es[4]);
    assert("<unk>"@.len() == 5 && "<s>"@.len() == 3 && "</s>"@.len() == 4 && "<pad>"@.len() == 5
        && " "@.len() == 1);
    assert("<unk>"@ != "<pad>"@) by {
        assert("<unk>"@[1] == 'u' && "<pad>"@[1] == 'p');
    }
    assert(entries_vocab(es) == entries_vocab(e1).insert("<unk>"@, 0u32));
    assert(entries_vocab(e1) == entries_vocab(e2).insert("<s>"@, 1u32));
    assert(entries_vocab(e2) == entries_vocab(e3).insert("</s>"@, 2u32));
    assert(entries_vocab(e3) == entries_vocab(e4).insert("<pad>"@, 3u32));
    assert(entries_vocab(e4) == entries_vocab(e4.drop_first()).insert(" "@, 4u32));
}

} // verus!
