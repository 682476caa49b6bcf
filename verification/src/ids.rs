use vstd::prelude::*;

verus! {

/// A lowercase hexadecimal digit.
pub open spec fn is_lower_hex(c: char) -> bool {
    ('0' <= c && c <= '9') || ('a' <= c && c <= 'f')
}

/// The hyphenated text form of a UUID: 36 characters, hyphens at
/// positions 8, 13, 18 and 23, lowercase hexadecimal digits elsewhere.
pub open spec fn is_hyphenated_uuid(s: Seq<char>) -> bool {
    &&& s.len() == 36
    &&& forall|i: int|
        0 <= i < 36 ==> if i == 8 || i == 13 || i == 18 || i == 23 {
            s[i] == '-'
        } else {
            is_lower_hex(#[trigger] s[i])
        }
}

/// The hyphenated text of a version-4 (random) UUID: the version digit
/// (position 14) is `4` and the variant digit (position 19) is one of
/// `8`, `9`, `a`, `b`.
pub open spec fn is_uuid_v4_text(s: Seq<char>) -> bool {
    &&& is_hyphenated_uuid(s)
    &&& s[14] == '4'
    &&& (s[19] == '8' || s[19] == '9' || s[19] == 'a' || s[19] == 'b')
}

/// The characters of `s` other than `'-'`, in order.
pub open spec fn without_hyphens(s: Seq<char>) -> Seq<char> {
    s.filter(|c: char| c != '-')
}

/// The prefix every session token starts with.
pub open spec fn session_token_prefix() -> Seq<char> {
    seq!['s', 'e', 's', 's', 'i', 'o', 'n', '_']
}

/// A session token as the adapter issues it: the prefix followed by the
/// 32 hexadecimal digits of a random UUID.
pub open spec fn is_session_token(t: Seq<char>) -> bool {
    &&& t.len() == 40
    &&& t.subrange(0, 8) == session_token_prefix()
    &&& forall|i: int| 8 <= i < 40 ==> is_lower_hex(#[trigger] t[i])
}

/// Generates a random version-4 UUID with `uuid::Uuid::new_v4` and renders
/// it with its `Display` impl (`to_string`). Claimed, from the crate's
/// hyphenated lowercase formatter and from the version and variant bits that
/// `new_v4` sets: the text is the 36-character hyphenated form of a
/// version-4 UUID. The other digits are random, so nothing more is claimed.
#[verifier::external_body]
pub(crate) fn new_uuid_string() -> (r: String)
    ensures
        is_uuid_v4_text(r@),
{
    uuid::Uuid::new_v4().to_string()
}

/// Removes every `'-'` from the text.
pub fn remove_hyphens(s: &str) -> (r: String)
    ensures
        r@ == without_hyphens(s@),
{
    let n = s.unicode_len();
    let mut out = String::new();
    let mut i: usize = 0;
    while i < n
        invariant
            n == s@.len(),
            i <= n,
            out@ == without_hyphens(s@.subrange(0, i as int)),
        decreases n - i,
    {
        let c = s.get_char(i);
        proof {
            let pre = s@.subrange(0, i as int);
            assert(s@.subrange(0, i as int + 1) =~= pre.push(c));
            pre.lemma_filter_push(c, |c: char| c != '-');
        }
        if c != '-' {
            let piece = s.substring_char(i, i + 1);
            assert(piece@ =~= seq![c]);
            out.append(piece);
        }
        i = i + 1;
    }
    assert(s@.subrange(0, n as int) =~= s@);
    out
}


/// How many of the hyphen positions of a hyphenated UUID lie before `k`.
pub open spec fn hyphens_before(k: int) -> int {
    (if k > 8 { 1int } else { 0 }) + (if k > 13 { 1int } else { 0 }) + (if k > 18 { 1int } else {
        0
    }) + (if k > 23 { 1int } else { 0 })
}

/// Without its hyphens, a prefix of a hyphenated UUID keeps exactly its
/// hexadecimal digits, all of them lowercase hexadecimal.
pub proof fn lemma_uuid_prefix_without_hyphens(s: Seq<char>, k: int)
    requires
        is_hyphenated_uuid(s),
        0 <= k <= 36,
    ensures
        without_hyphens(s.take(k)).len() == k - hyphens_before(k),
        forall|i: int|
            0 <= i < without_hyphens(s.take(k)).len() ==> is_lower_hex(
                #[trigger] without_hyphens(s.take(k))[i],
            ),
    decreases k,
{
    let p = |c: char| c != '-';
    if k > 0 {
        lemma_uuid_prefix_without_hyphens(s, k - 1);
        assert(s.take(k) =~= s.take(k - 1).push(s[k - 1]));
        s.take(k - 1).lemma_filter_push(s[k - 1], p);
        assert(is_lower_hex(s[k - 1]) ==> s[k - 1] != '-');
    }
    assert(s.take(0) =~= Seq::<char>::empty());
}

/// The session token made from a UUID's text: `"session_"` followed by
/// the text without its hyphens.
pub open spec fn session_token_for(uuid: Seq<char>) -> Seq<char> {
    session_token_prefix() + without_hyphens(uuid)
}

/// Makes the session token for a UUID's text.
pub fn session_token_from_uuid(uuid: &str) -> (r: String)
    ensures
        r@ == session_token_for(uuid@),
{
    let digits = remove_hyphens(uuid);
    proof {
        reveal_strlit("session_");
    }
    let token = String::from_str("session_").concat(digits.as_str());
    assert(token@ =~= session_token_for(uuid@));
    token
}

/// The token made from a version-4 UUID's text has the session-token form.
pub proof fn lemma_token_of_uuid_is_session_token(uuid: Seq<char>)
    requires
        is_uuid_v4_text(uuid),
    ensures
        is_session_token(session_token_for(uuid)),
{
    lemma_uuid_prefix_without_hyphens(uuid, 36);
    assert(uuid.take(36) =~= uuid);
    let t = session_token_for(uuid);
    assert(t.subrange(0, 8) =~= session_token_prefix());
    assert forall|i: int| 8 <= i < 40 implies is_lower_hex(#[trigger] t[i]) by {
        assert(t[i] == without_hyphens(uuid)[i - 8]);
    }
}

/// Issues a fresh session token: `"session_"` followed by the digits of a
/// random version-4 UUID with its hyphens removed.
pub fn new_session_token() -> (r: String)
    ensures
        exists|u: Seq<char>| is_uuid_v4_text(u) && r@ == session_token_for(u),
        is_session_token(r@),
{
    let uuid = new_uuid_string();
    let token = session_token_from_uuid(uuid.as_str());
    proof {
        lemma_token_of_uuid_is_session_token(uuid@);
    }
    token
}

} // verus!
