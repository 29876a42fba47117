use vstd::prelude::*;
use crate::object_id::{ObjectId, is_hex_oid, bytes_of_hex, hex_of_bytes};
use crate::result::HookError;

verus! {

/// How a push updates the remote reference, told apart by which of the two
/// hashes in the push-update record is the zero sentinel. A zero local hash
/// means Delete even when the remote hash is zero too: the local check takes
/// priority.
#[derive(Debug, PartialEq, Eq, Structural)]
pub enum PushType {
    Delete,
    Create,
    Update,
}

/// ASCII whitespace, the separators of a push-update line.
pub open spec fn is_ws(c: char) -> bool {
    c == ' ' || c == '\t' || c == '\n' || c == '\r'
}

pub open spec fn skip_ws(s: Seq<char>) -> Seq<char>
    decreases s.len(),
{
    if s.len() == 0 {
        s
    } else if is_ws(s[0]) {
        skip_ws(s.drop_first())
    } else {
        s
    }
}

pub open spec fn take_token(s: Seq<char>) -> Seq<char>
    decreases s.len(),
{
    if s.len() == 0 || is_ws(s[0]) {
        Seq::empty()
    } else {
        seq![s[0]] + take_token(s.drop_first())
    }
}

pub open spec fn drop_token(s: Seq<char>) -> Seq<char>
    decreases s.len(),
{
    if s.len() == 0 || is_ws(s[0]) {
        s
    } else {
        drop_token(s.drop_first())
    }
}

proof fn lemma_skip_ws_len(s: Seq<char>)
    ensures
        skip_ws(s).len() <= s.len(),
    decreases s.len(),
{
    if s.len() > 0 && is_ws(s[0]) {
        lemma_skip_ws_len(s.drop_first());
    }
}

proof fn lemma_drop_token_le(s: Seq<char>)
    ensures
        drop_token(s).len() <= s.len(),
    decreases s.len(),
{
    if s.len() > 0 && !is_ws(s[0]) {
        lemma_drop_token_le(s.drop_first());
    }
}

/// The whitespace-separated tokens of a line, in order.
pub open spec fn tokens(s: Seq<char>) -> Seq<Seq<char>>
    decreases s.len(),
    via tokens_decreases
{
    if skip_ws(s).len() == 0 {
        Seq::empty()
    } else {
        seq![take_token(skip_ws(s))] + tokens(drop_token(skip_ws(s)))
    }
}

#[via_fn]
proof fn tokens_decreases(s: Seq<char>) {
    lemma_skip_ws_len(s);
    if skip_ws(s).len() > 0 {
        lemma_skip_ws_first(s);
        lemma_drop_token_le(skip_ws(s).drop_first());
    }
}

proof fn lemma_skip_ws_first(s: Seq<char>)
    ensures
        skip_ws(s).len() > 0 ==> !is_ws(skip_ws(s)[0]),
    decreases s.len(),
{
    if s.len() > 0 && is_ws(s[0]) {
        lemma_skip_ws_first(s.drop_first());
    }
}

proof fn lemma_ws_step(s: Seq<char>)
    requires
        s.len() > 0,
        is_ws(s[0]),
    ensures
        tokens(s) == tokens(s.drop_first()),
{
    assert(skip_ws(s) == skip_ws(s.drop_first()));
}

proof fn lemma_token_split(s: Seq<char>, k: int)
    requires
        0 <= k <= s.len(),
        forall|j: int| 0 <= j < k ==> !is_ws(#[trigger] s[j]),
        k == s.len() || is_ws(s[k]),
    ensures
        take_token(s) == s.subrange(0, k),
        drop_token(s) == s.skip(k),
    decreases k,
{
    if k == 0 {
        assert(s.subrange(0, 0) =~= Seq::<char>::empty());
        assert(s.skip(0) =~= s);
    } else {
        lemma_token_split(s.drop_first(), k - 1);
        assert(s.drop_first().subrange(0, k - 1) =~= s.subrange(1, k));
        assert(seq![s[0]] + s.subrange(1, k) =~= s.subrange(0, k));
        assert(s.drop_first().skip(k - 1) =~= s.skip(k));
    }
}

fn is_ws_char(c: char) -> (r: bool)
    ensures
        r == is_ws(c),
{
    c == ' ' || c == '\t' || c == '\n' || c == '\r'
}

fn chars_of(s: &String) -> (r: Vec<char>)
    ensures
        r@ == s@,
{
    let n = s.as_str().unicode_len();
    let mut r: Vec<char> = Vec::new();
    let mut i: usize = 0;
    while i < n
        invariant
            n == s@.len(),
            i <= n,
            r@ == s@.take(i as int),
        decreases n - i,
    {
        r.push(s.as_str().get_char(i));
        i += 1;
        proof {
            assert(r@ =~= s@.take(i as int));
        }
    }
    proof {
        assert(s@.take(n as int) =~= s@);
    }
    r
}

fn tokenize(cs: &Vec<char>) -> (r: Vec<Vec<char>>)
    ensures
        r@.map_values(|t: Vec<char>| t@) == tokens(cs@),
{
    let mut r: Vec<Vec<char>> = Vec::new();
    let mut i: usize = 0;
    proof {
        assert(cs@.skip(0) =~= cs@);
        assert(r@.map_values(|t: Vec<char>| t@) + tokens(cs@.skip(0)) =~= tokens(cs@));
    }
    while i < cs.len()
        invariant
            i <= cs@.len(),
            r@.map_values(|t: Vec<char>| t@) + tokens(cs@.skip(i as int)) == tokens(cs@),
        decreases cs@.len() - i,
    {
        if is_ws_char(cs[i]) {
            proof {
                lemma_ws_step(cs@.skip(i as int));
                assert(cs@.skip(i as int).drop_first() =~= cs@.skip(i as int + 1));
            }
            i += 1;
        } else {
            let start = i;
            let mut tok: Vec<char> = Vec::new();
            while i < cs.len() && !is_ws_char(cs[i])
                invariant
                    start <= i <= cs@.len(),
                    start < cs@.len(),
                    !is_ws(cs@[start as int]),
                    tok@ == cs@.subrange(start as int, i as int),
                    forall|j: int| start <= j < i ==> !is_ws(#[trigger] cs@[j]),
                decreases cs@.len() - i,
            {
                tok.push(cs[i]);
                i += 1;
                proof {
                    assert(tok@ =~= cs@.subrange(start as int, i as int));
                }
            }
            let ghost s0 = cs@.skip(start as int);
            let ghost k = i - start;
            let ghost pre = r@.map_values(|t: Vec<char>| t@);
            proof {
                assert(forall|j: int| 0 <= j < k ==> !is_ws(#[trigger] s0[j]));
                assert(k == s0.len() || is_ws(s0[k]));
                lemma_token_split(s0, k);
                assert(s0.subrange(0, k) =~= cs@.subrange(start as int, i as int));
                assert(s0.skip(k) =~= cs@.skip(i as int));
                assert(skip_ws(s0) == s0);
                assert(tokens(s0) == seq![tok@] + tokens(cs@.skip(i as int)));
            }
            r.push(tok);
            proof {
                assert(r@.map_values(|t: Vec<char>| t@) =~= pre + seq![cs@.subrange(start as int, i as int)]);
                assert(pre + (seq![cs@.subrange(start as int, i as int)] + tokens(cs@.skip(i as int)))
                    =~= (pre + seq![cs@.subrange(start as int, i as int)]) + tokens(cs@.skip(i as int)));
            }
        }
    }
    proof {
        assert(cs@.skip(cs@.len() as int) =~= Seq::<char>::empty());
        assert(r@.map_values(|t: Vec<char>| t@) + tokens(cs@.skip(cs@.len() as int))
            =~= r@.map_values(|t: Vec<char>| t@));
    }
    r
}

/// A push-update line parses when it has at least four whitespace-separated
/// fields and the two hash fields (the second and the fourth) are forty hex
/// digits each.
pub open spec fn line_parses(s: Seq<char>) -> bool {
    tokens(s).len() >= 4 && is_hex_oid(tokens(s)[1]) && is_hex_oid(tokens(s)[3])
}

/// The two object hashes of one push-update record: the hash the local side
/// pushes and the hash the remote reference currently holds.
#[derive(Debug)]
pub struct CommitRange {
    pub local_sha1: ObjectId,
    pub remote_sha1: ObjectId,
}

impl CommitRange {
    pub open spec fn well_formed(&self) -> bool {
        self.local_sha1.well_formed() && self.remote_sha1.well_formed()
    }

    /// Which kind of update the record describes. A zero local hash means
    /// Delete; otherwise a zero remote hash means Create; otherwise Update.
    pub open spec fn push_type_spec(&self) -> PushType {
        if self.local_sha1.is_zero_spec() {
            PushType::Delete
        } else if self.remote_sha1.is_zero_spec() {
            PushType::Create
        } else {
            PushType::Update
        }
    }

    /// Parses one push-update line: local reference, local hash, remote
    /// reference, remote hash, separated by whitespace. Fewer than four
    /// fields, or a hash field that is not forty hex digits, is a ParseError.
    pub fn from_line(line: String) -> (r: Result<CommitRange, HookError>)
        ensures
            r is Ok <==> line_parses(line@),
            r matches Ok(cr) ==> cr.well_formed()
                && cr.local_sha1@ == bytes_of_hex(tokens(line@)[1])
                && cr.remote_sha1@ == bytes_of_hex(tokens(line@)[3]),
            r is Err ==> r == Err::<CommitRange, HookError>(HookError::ParseError),
    {
        let cs = chars_of(&line);
        let toks = tokenize(&cs);
        proof {
            assert(toks@.map_values(|t: Vec<char>| t@).len() == toks@.len());
        }
        if toks.len() < 4 {
            return Err(HookError::ParseError);
        }
        proof {
            assert(toks@.map_values(|t: Vec<char>| t@)[1] == toks@[1]@);
            assert(toks@.map_values(|t: Vec<char>| t@)[3] == toks@[3]@);
        }
        let local_sha1 = match ObjectId::from_hex_chars(&toks[1]) {
            Some(o) => o,
            None => {
                return Err(HookError::ParseError);
            },
        };
        let remote_sha1 = match ObjectId::from_hex_chars(&toks[3]) {
            Some(o) => o,
            None => {
                return Err(HookError::ParseError);
            },
        };
        Ok(CommitRange { local_sha1, remote_sha1 })
    }

    pub fn push_type(&self) -> (r: PushType)
        ensures
            r == self.push_type_spec(),
    {
        if self.local_sha1.is_zero() {
            PushType::Delete
        } else if self.remote_sha1.is_zero() {
            PushType::Create
        } else {
            PushType::Update
        }
    }

    /// The revision span to inspect: nothing for a delete, the single local
    /// endpoint for a create, and the exclusive range "remote..local" for an
    /// update.
    pub fn range(&self) -> (r: Option<String>)
        requires
            self.well_formed(),
        ensures
            self.push_type_spec() is Delete <==> r is None,
            self.push_type_spec() is Create ==> (r matches Some(t) && t@ == hex_of_bytes(
                self.local_sha1@,
            )),
            self.push_type_spec() is Update ==> (r matches Some(t) && t@ == hex_of_bytes(
                self.remote_sha1@,
            ) + ".."@ + hex_of_bytes(self.local_sha1@)),
    {
        match self.push_type() {
            PushType::Delete => None,
            PushType::Create => Some(self.local_sha1.to_hex()),
            PushType::Update => {
                let mut s = self.remote_sha1.to_hex();
                s.append("..");
                let loc = self.local_sha1.to_hex();
                s.append(loc.as_str());
                Some(s)
            },
        }
    }
}

} // verus!
