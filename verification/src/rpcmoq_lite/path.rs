//! Path addressing: pure functions mapping a logical call name plus client
//! identity to transport-level names, and parsing a transport-level
//! announcement back into its logical components.
//!
//! A request or response path has the form `{prefix}/{client_id}/{call_name}`
//! (or `{client_id}/{call_name}` when no prefix is configured), where
//! `call_name` itself may contain `/`. Construction and parsing are mutual
//! inverses for any `client_id` free of the separator.

use vstd::prelude::*;
use vstd::string::{StrSliceExecFns, StringExecFns};

use super::error::RpcError;

verus! {

/// The constructed path: `prefix/client_id/call` when a prefix is present,
/// `client_id/call` otherwise.
pub open spec fn spec_join(
    prefix: Option<Seq<char>>,
    client_id: Seq<char>,
    call: Seq<char>,
) -> Seq<char> {
    match prefix {
        Some(p) => p + seq!['/'] + client_id + seq!['/'] + call,
        None => client_id + seq!['/'] + call,
    }
}

/// No occurrence of the path separator.
pub open spec fn slash_free(s: Seq<char>) -> bool {
    forall|i: int| 0 <= i < s.len() ==> s[i] != '/'
}

/// The path starts with `prefix` followed by the separator (trivially true
/// without a prefix).
pub open spec fn strip_ok(prefix: Option<Seq<char>>, path: Seq<char>) -> bool {
    match prefix {
        Some(p) => path.len() > p.len() + 1 && path.subrange(0, p.len() as int) == p && path[p.len() as int]
            == '/',
        None => true,
    }
}

/// The path with its prefix and separator removed.
pub open spec fn rest_of(prefix: Option<Seq<char>>, path: Seq<char>) -> Seq<char> {
    match prefix {
        Some(p) => path.subrange(p.len() + 1 as int, path.len() as int),
        None => path,
    }
}

/// `rest` splits at its first separator into a non-empty, separator-free
/// client identifier and a non-empty remainder.
pub open spec fn splits_as(rest: Seq<char>, client_id: Seq<char>, call: Seq<char>) -> bool {
    &&& rest == client_id + seq!['/'] + call
    &&& client_id.len() > 0
    &&& slash_free(client_id)
    &&& call.len() > 0
}

/// A path parses under `prefix` when the prefix strips and the remainder
/// splits into client identifier and call name.
pub open spec fn parsable(prefix: Option<Seq<char>>, path: Seq<char>) -> bool {
    strip_ok(prefix, path) && exists|cid: Seq<char>, call: Seq<char>|
        #[trigger] splits_as(rest_of(prefix, path), cid, call)
}

/// Law: a remainder splits in at most one way, because the client identifier
/// must be separator-free and therefore ends at the first separator.
pub proof fn lemma_split_unique(
    rest: Seq<char>,
    cid1: Seq<char>,
    call1: Seq<char>,
    cid2: Seq<char>,
    call2: Seq<char>,
)
    requires
        splits_as(rest, cid1, call1),
        splits_as(rest, cid2, call2),
    ensures
        cid1 == cid2,
        call1 == call2,
{
    assert((cid1 + seq!['/'] + call1)[cid1.len() as int] == '/');
    assert((cid2 + seq!['/'] + call2)[cid2.len() as int] == '/');
    assert forall|i: int| 0 <= i < cid1.len() implies rest[i] == cid1[i] by {
        assert((cid1 + seq!['/'] + call1)[i] == cid1[i]);
    }
    assert forall|i: int| 0 <= i < cid2.len() implies rest[i] == cid2[i] by {
        assert((cid2 + seq!['/'] + call2)[i] == cid2[i]);
    }
    if cid1.len() < cid2.len() {
        assert(cid2[cid1.len() as int] == rest[cid1.len() as int]);
        assert(false);
    }
    if cid2.len() < cid1.len() {
        assert(cid1[cid2.len() as int] == rest[cid2.len() as int]);
        assert(false);
    }
    assert(cid1 =~= cid2);
    assert(rest.len() == cid1.len() + 1 + call1.len());
    assert(rest.len() == cid2.len() + 1 + call2.len());
    assert(call1.len() == call2.len());
    assert forall|i: int| 0 <= i < call1.len() implies call1[i] == call2[i] by {
        assert((cid1 + seq!['/'] + call1)[cid1.len() + 1 + i] == call1[i]);
        assert((cid2 + seq!['/'] + call2)[cid2.len() + 1 + i] == call2[i]);
    }
    assert(call1 =~= call2);
}

/// Law: parsing is the exact inverse of construction. For any prefix, any
/// non-empty separator-free client identifier and any non-empty call name,
/// the constructed path strips its prefix back off and splits into exactly
/// the same client identifier and call name.
pub proof fn lemma_parse_inverts_build(
    prefix: Option<Seq<char>>,
    client_id: Seq<char>,
    call: Seq<char>,
)
    requires
        client_id.len() > 0,
        slash_free(client_id),
        call.len() > 0,
    ensures
        strip_ok(prefix, spec_join(prefix, client_id, call)),
        rest_of(prefix, spec_join(prefix, client_id, call)) == client_id + seq!['/'] + call,
        splits_as(rest_of(prefix, spec_join(prefix, client_id, call)), client_id, call),
        parsable(prefix, spec_join(prefix, client_id, call)),
        forall|cid2: Seq<char>, call2: Seq<char>|
            #[trigger] splits_as(rest_of(prefix, spec_join(prefix, client_id, call)), cid2, call2)
                ==> cid2 == client_id && call2 == call,
{
    let joined = spec_join(prefix, client_id, call);
    match prefix {
        Some(p) => {
            assert(joined.subrange(0, p.len() as int) =~= p);
            assert(joined[p.len() as int] == '/');
            assert(joined.subrange(p.len() + 1 as int, joined.len() as int) =~= client_id
                + seq!['/'] + call);
        },
        None => {},
    }
    assert(splits_as(rest_of(prefix, joined), client_id, call));
    assert forall|cid2: Seq<char>, call2: Seq<char>|
        #[trigger] splits_as(rest_of(prefix, joined), cid2, call2) implies cid2 == client_id
        && call2 == call by {
        lemma_split_unique(rest_of(prefix, joined), cid2, call2, client_id, call);
    }
}

/// Law: construction is the exact inverse of parsing. A path that parses
/// under a prefix into a client identifier and a call name is exactly the
/// path that construction builds back from them.
pub proof fn lemma_build_inverts_parse(
    prefix: Option<Seq<char>>,
    path: Seq<char>,
    client_id: Seq<char>,
    call: Seq<char>,
)
    requires
        strip_ok(prefix, path),
        splits_as(rest_of(prefix, path), client_id, call),
    ensures
        spec_join(prefix, client_id, call) == path,
{
    lemma_parse_inverts_build(prefix, client_id, call);
    let join = spec_join(prefix, client_id, call);
    match prefix {
        Some(p) => {
            let rest = rest_of(prefix, path);
            assert(rest_of(prefix, join) == rest);
            assert(path.len() == p.len() + 1 + rest.len());
            assert(join.len() == p.len() + 1 + rest.len());
            assert forall|i: int| 0 <= i < path.len() implies join[i] == path[i] by {
                if i < p.len() {
                    assert(path.subrange(0, p.len() as int)[i] == path[i]);
                    assert(join.subrange(0, p.len() as int)[i] == join[i]);
                } else if i > p.len() {
                    assert(rest_of(prefix, path)[i - p.len() - 1] == path[i]);
                    assert(rest_of(prefix, join)[i - p.len() - 1] == join[i]);
                }
            }
            assert(join =~= path);
        },
        None => {
            assert(join == path);
        },
    }
}

/// A parsed call name: `{namespace}.{Service}/{Method}`, kept whole because
/// the number of its own components is not fixed.
#[derive(Debug)]
pub struct GrpcPath {
    full: String,
}

impl View for GrpcPath {
    type V = Seq<char>;

    closed spec fn view(&self) -> Seq<char> {
        self.full@
    }
}

impl GrpcPath {
    pub fn new(full: String) -> (r: Self)
        ensures
            r@ == full@,
    {
        GrpcPath { full }
    }

    /// The call name as one string.
    pub fn full_path(&self) -> (r: String)
        ensures
            r@ == self@,
    {
        self.full.clone()
    }
}

impl Clone for GrpcPath {
    fn clone(&self) -> (r: Self)
        ensures
            r@ == self@,
    {
        GrpcPath { full: self.full.clone() }
    }
}

/// The logical components of a request path announcement: who is calling and
/// which call they address.
#[derive(Debug)]
pub struct RpcRequestPath {
    pub client_id: String,
    pub grpc_path: GrpcPath,
}

/// Compare two string slices by their characters.
pub(crate) fn str_eq(a: &str, b: &str) -> (r: bool)
    ensures
        r == (a@ == b@),
{
    let an = a.unicode_len();
    let bn = b.unicode_len();
    if an != bn {
        return false;
    }
    let mut i: usize = 0;
    while i < an
        invariant
            an == a@.len(),
            an == b@.len(),
            0 <= i <= an,
            forall|j: int| 0 <= j < i ==> a@[j] == b@[j],
        decreases an - i,
    {
        if a.get_char(i) != b.get_char(i) {
            return false;
        }
        i = i + 1;
    }
    proof {
        assert(a@ =~= b@);
    }
    true
}

/// Find the first path separator in a string, if any.
fn find_slash(s: &str) -> (r: Option<usize>)
    ensures
        r matches Some(k) ==> 0 <= k < s@.len() && s@[k as int] == '/' && (forall|j: int|
            0 <= j < k ==> s@[j] != '/'),
        r is None ==> slash_free(s@),
{
    let n = s.unicode_len();
    let mut i: usize = 0;
    while i < n
        invariant
            n == s@.len(),
            0 <= i <= n,
            forall|j: int| 0 <= j < i ==> s@[j] != '/',
        decreases n - i,
    {
        if s.get_char(i) == '/' {
            return Some(i);
        }
        i = i + 1;
    }
    None
}

/// Join an optional prefix, a client identifier and a call name into one
/// path.
pub(crate) fn join_path(prefix: Option<&String>, client_id: &str, call: &str) -> (r: String)
    ensures
        r@ == spec_join(
            match prefix {
                Some(p) => Some(p@),
                None => None,
            },
            client_id@,
            call@,
        ),
{
    let mut out = String::new();
    match prefix {
        Some(p) => {
            out.append(p.as_str());
            out.append("/");
        },
        None => {},
    }
    out.append(client_id);
    out.append("/");
    out.append(call);
    proof {
        reveal_strlit("/");
        assert("/"@ =~= seq!['/']);
    }
    out
}

impl RpcRequestPath {
    /// Parse a request path announcement under the configured prefix.
    ///
    /// The prefix, when present, must match and is stripped; of the remainder
    /// the first segment is the client identifier and the rest, rejoined, is
    /// the call name. Fails with a `PathParse` error if the prefix does not
    /// match or if fewer than two separator-delimited components follow it.
    pub fn parse(prefix: Option<&str>, path: &str) -> (res: Result<RpcRequestPath, RpcError>)
        ensures
            res is Ok <==> parsable(
                match prefix {
                    Some(p) => Some(p@),
                    None => None,
                },
                path@,
            ),
            res matches Ok(rp) ==> splits_as(
                rest_of(
                    match prefix {
                        Some(p) => Some(p@),
                        None => None,
                    },
                    path@,
                ),
                rp.client_id@,
                rp.grpc_path@,
            ),
            res matches Err(e) ==> e is PathParse,
    {
        let ghost gprefix: Option<Seq<char>> = match prefix {
            Some(p) => Some(p@),
            None => None,
        };
        let rest: String = match prefix {
            Some(p) => {
                let plen = p.unicode_len();
                let n = path.unicode_len();
                if n <= plen || n - plen < 2 {
                    return Err(RpcError::PathParse(String::from_str(path)));
                }
                let head = path.substring_char(0, plen);
                if !str_eq(head, p) {
                    return Err(RpcError::PathParse(String::from_str(path)));
                }
                if path.get_char(plen) != '/' {
                    return Err(RpcError::PathParse(String::from_str(path)));
                }
                String::from_str(path.substring_char(plen + 1, n))
            },
            None => String::from_str(path),
        };
        proof {
            assert(strip_ok(gprefix, path@));
            assert(rest@ == rest_of(gprefix, path@));
        }
        let rn = rest.as_str().unicode_len();
        match find_slash(rest.as_str()) {
            Some(k) => {
                if k == 0 || k + 1 >= rn {
                    proof {
                        lemma_no_split(rest@);
                    }
                    return Err(RpcError::PathParse(String::from_str(path)));
                }
                let client_id = String::from_str(rest.as_str().substring_char(0, k));
                let call = String::from_str(rest.as_str().substring_char(k + 1, rn));
                proof {
                    assert(rest@ =~= client_id@ + seq!['/'] + call@);
                    assert(splits_as(rest@, client_id@, call@));
                }
                Ok(RpcRequestPath { client_id, grpc_path: GrpcPath::new(call) })
            },
            None => {
                proof {
                    lemma_no_split(rest@);
                }
                Err(RpcError::PathParse(String::from_str(path)))
            },
        }
    }
}

/// When the remainder has no separator, or its first separator sits at the
/// very start or very end, no split exists.
proof fn lemma_no_split(rest: Seq<char>)
    requires
        slash_free(rest) || (exists|k: int|
            0 <= k < rest.len() && #[trigger] rest[k] == '/' && (forall|j: int|
                0 <= j < k ==> rest[j] != '/') && (k == 0 || k + 1 >= rest.len())),
    ensures
        forall|cid: Seq<char>, call: Seq<char>| !(#[trigger] splits_as(rest, cid, call)),
{
    assert forall|cid: Seq<char>, call: Seq<char>| !(#[trigger] splits_as(rest, cid, call)) by {
        if splits_as(rest, cid, call) {
            assert(rest.len() == cid.len() + 1 + call.len());
            assert(rest[cid.len() as int] == '/');
            assert forall|i: int| 0 <= i < cid.len() implies rest[i] == cid[i] by {}
            if slash_free(rest) {
                assert(false);
            } else {
                let k = choose|k: int|
                    0 <= k < rest.len() && #[trigger] rest[k] == '/' && (forall|j: int|
                        0 <= j < k ==> rest[j] != '/') && (k == 0 || k + 1 >= rest.len());
                if cid.len() < k {
                    assert(rest[cid.len() as int] != '/');
                    assert(false);
                }
                if cid.len() > k {
                    assert(cid[k] == rest[k]);
                    assert(false);
                }
                assert(cid.len() == k);
                if k == 0 {
                    assert(false);
                } else {
                    assert(call.len() == 0);
                    assert(false);
                }
            }
        }
    }
}

} // verus!
