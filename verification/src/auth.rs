//! One-time-token authentication exchange.
//!
//! `TokenStorage` is an in-memory table mapping an opaque token to the user
//! it was issued for, together with the moment of issue. Every operation
//! first sweeps out entries whose time-to-live has passed; `push` refuses a
//! token that is still live (a collision would let one user redeem
//! another's session), and `pop` removes the entry it returns, so a token
//! redeems at most once.
//!
//! Time enters as an explicit `now` argument (seconds on whatever clock the
//! caller uses, as long as it is the same clock as at issue time); the
//! caller that owns the real clock reads it and passes the value in.
//!
//! The table's contract is stated over a `Map<Seq<char>, TokenInfo>` view;
//! the spec-level transitions `push_map`/`pop_map`/`pop_result` describe
//! each operation, and the public lemmas below state the one-time-use,
//! collision, expiry and independence laws over those transitions.

use vstd::prelude::*;

verus! {

/// Why a token operation failed.
#[derive(Clone, Copy, Debug, PartialEq, Eq, Structural)]
pub enum TokenError {
    /// The token to be issued is identical to one that is still live.
    Collision,
}

/// What the table records about one live token.
#[derive(Clone, Copy, Debug, PartialEq, Eq, Structural)]
pub struct TokenInfo {
    pub user_id: i64,
    pub issued_at: u64,
}

struct TokenEntry {
    token: String,
    info: TokenInfo,
}

spec fn unique_tokens(s: Seq<TokenEntry>) -> bool {
    forall|i: int, j: int| 0 <= i < j < s.len() ==> s[i].token@ != s[j].token@
}

spec fn has_token(s: Seq<TokenEntry>, k: Seq<char>) -> bool {
    exists|b: int| 0 <= b < s.len() && s[b].token@ == k
}

spec fn disjoint_tokens(s1: Seq<TokenEntry>, s2: Seq<TokenEntry>) -> bool {
    forall|a: int, b: int|
        0 <= a < s1.len() && 0 <= b < s2.len() ==> s1[a].token@ != s2[b].token@
}

spec fn entries_map(s: Seq<TokenEntry>) -> Map<Seq<char>, TokenInfo>
    decreases s.len(),
{
    if s.len() == 0 {
        Map::empty()
    } else {
        entries_map(s.drop_last()).insert(s.last().token@, s.last().info)
    }
}

proof fn lemma_entries_map_props(s: Seq<TokenEntry>)
    requires
        unique_tokens(s),
    ensures
        forall|k: Seq<char>| #[trigger] entries_map(s).dom().contains(k) <==> has_token(s, k),
        forall|b: int|
            0 <= b < s.len() ==> entries_map(s)[#[trigger] s[b].token@] == s[b].info,
    decreases s.len(),
{
    if s.len() > 0 {
        let s0 = s.drop_last();
        assert(unique_tokens(s0));
        lemma_entries_map_props(s0);
        assert forall|k: Seq<char>| #[trigger] entries_map(s).dom().contains(k) implies has_token(
            s,
            k,
        ) by {
            if k == s.last().token@ {
                assert(s[s.len() - 1].token@ == k);
            } else {
                assert(entries_map(s0).dom().contains(k));
                assert(has_token(s0, k));
                let b = choose|b: int| 0 <= b < s0.len() && (#[trigger] s0[b]).token@ == k;
                assert(s[b].token@ == k);
            }
        }
        assert forall|k: Seq<char>| has_token(s, k) implies entries_map(s).dom().contains(k) by {
            let b = choose|b: int| 0 <= b < s.len() && s[b].token@ == k;
            if b < s.len() - 1 {
                assert(s0[b].token@ == k);
                assert(has_token(s0, k));
            }
        }
        assert forall|b: int| 0 <= b < s.len() implies entries_map(s)[#[trigger] s[b].token@]
            == s[b].info by {
            if b < s.len() - 1 {
                assert(s0[b].token@ == s[b].token@ && s0[b].info == s[b].info);
                assert(s[b].token@ != s.last().token@);
            }
        }
    }
}

/// A token issued at `issued_at` is out of life at `now` under `ttl`.
pub open spec fn expired(info: TokenInfo, now: u64, ttl: u64) -> bool {
    now >= info.issued_at + ttl
}

/// The table after the expiry sweep: the same map, restricted to tokens
/// still within their time-to-live.
pub open spec fn sweep_spec(
    m: Map<Seq<char>, TokenInfo>,
    now: u64,
    ttl: u64,
) -> Map<Seq<char>, TokenInfo> {
    Map::new(|k: Seq<char>| m.dom().contains(k) && !expired(m[k], now, ttl), |k: Seq<char>| m[k])
}

/// Whether issuing `token` at `now` succeeds: the token must not be live
/// after the sweep.
pub open spec fn push_ok(m: Map<Seq<char>, TokenInfo>, token: Seq<char>, now: u64, ttl: u64) -> bool {
    !sweep_spec(m, now, ttl).dom().contains(token)
}

/// The table after `push`: swept, and extended by the new token when the
/// issue succeeded.
pub open spec fn push_map(
    m: Map<Seq<char>, TokenInfo>,
    user_id: i64,
    token: Seq<char>,
    now: u64,
    ttl: u64,
) -> Map<Seq<char>, TokenInfo> {
    if push_ok(m, token, now, ttl) {
        sweep_spec(m, now, ttl).insert(token, TokenInfo { user_id, issued_at: now })
    } else {
        sweep_spec(m, now, ttl)
    }
}

/// What `pop` returns: the owner of `token` if it is live at `now`.
pub open spec fn pop_result(
    m: Map<Seq<char>, TokenInfo>,
    token: Seq<char>,
    now: u64,
    ttl: u64,
) -> Option<i64> {
    if sweep_spec(m, now, ttl).dom().contains(token) {
        Some(sweep_spec(m, now, ttl)[token].user_id)
    } else {
        None
    }
}

/// The table after `pop`: swept, with `token` removed unconditionally.
pub open spec fn pop_map(
    m: Map<Seq<char>, TokenInfo>,
    token: Seq<char>,
    now: u64,
    ttl: u64,
) -> Map<Seq<char>, TokenInfo> {
    sweep_spec(m, now, ttl).remove(token)
}

fn is_expired(info: &TokenInfo, now: u64, ttl: u64) -> (r: bool)
    ensures
        r == expired(*info, now, ttl),
{
    now >= info.issued_at && now - info.issued_at >= ttl
}

/// The one-time-token table: token -> (user, moment of issue), with a
/// time-to-live fixed at construction.
pub struct TokenStorage {
    entries: Vec<TokenEntry>,
    token_ttl_secs: u64,
}

impl View for TokenStorage {
    type V = Map<Seq<char>, TokenInfo>;

    closed spec fn view(&self) -> Map<Seq<char>, TokenInfo> {
        entries_map(self.entries@)
    }
}

impl TokenStorage {
    /// The table never holds two entries for one token.
    pub closed spec fn wf(self) -> bool {
        unique_tokens(self.entries@)
    }

    /// The time-to-live this table was constructed with.
    pub closed spec fn ttl(self) -> u64 {
        self.token_ttl_secs
    }

    pub fn new(token_ttl_secs: u64) -> (s: TokenStorage)
        ensures
            s.wf(),
            s.ttl() == token_ttl_secs,
            s@ == Map::<Seq<char>, TokenInfo>::empty(),
    {
        TokenStorage { entries: Vec::new(), token_ttl_secs }
    }

    /// The expiry sweep: drops every entry whose time-to-live has passed.
    fn clean(&mut self, now: u64)
        requires
            old(self).wf(),
        ensures
            final(self).wf(),
            final(self).ttl() == old(self).ttl(),
            final(self)@ == sweep_spec(old(self)@, now, old(self).ttl()),
    {
        let ttl = self.token_ttl_secs;
        let mut pending: Vec<TokenEntry> = Vec::new();
        core::mem::swap(&mut self.entries, &mut pending);
        let ghost orig: Seq<TokenEntry> = pending@;
        let ghost mut i: int = 0;
        while pending.len() > 0
            invariant
                self.token_ttl_secs == ttl,
                0 <= i <= orig.len(),
                pending@ == orig.skip(i),
                unique_tokens(orig),
                unique_tokens(pending@),
                unique_tokens(self.entries@),
                disjoint_tokens(self.entries@, pending@),
                entries_map(self.entries@) == sweep_spec(entries_map(orig.take(i)), now, ttl),
            decreases pending.len(),
        {
            let ghost kept = self.entries@;
            let ghost rest = pending@;
            let e = pending.remove(0);
            proof {
                assert(e == orig[i]);
                assert(pending@ =~= orig.skip(i + 1));
                assert(orig.take(i + 1).drop_last() =~= orig.take(i));
                assert(orig.take(i + 1).last() == orig[i]);
                assert(entries_map(orig.take(i + 1)) == entries_map(orig.take(i)).insert(
                    e.token@,
                    e.info,
                ));
                assert(unique_tokens(orig.take(i)));
                lemma_entries_map_props(orig.take(i));
                // The fresh token is not in the processed prefix.
                assert(!has_token(orig.take(i), e.token@)) by {
                    if has_token(orig.take(i), e.token@) {
                        let b = choose|b: int|
                            0 <= b < orig.take(i).len() && orig.take(i)[b].token@ == e.token@;
                        assert(orig[b].token@ == orig[i].token@);
                    }
                }
                assert(unique_tokens(kept));
                lemma_entries_map_props(kept);
                assert(!has_token(kept, e.token@)) by {
                    if has_token(kept, e.token@) {
                        let a = choose|a: int| 0 <= a < kept.len() && kept[a].token@ == e.token@;
                        assert(kept[a].token@ != rest[0].token@);
                    }
                }
            }
            if !is_expired(&e.info, now, ttl) {
                self.entries.push(e);
                proof {
                    assert(entries_map(self.entries@) == entries_map(kept).insert(
                        e.token@,
                        e.info,
                    )) by {
                        assert(self.entries@.drop_last() =~= kept);
                        assert(self.entries@.last() == e);
                    }
                    assert(entries_map(self.entries@) =~= sweep_spec(
                        entries_map(orig.take(i + 1)),
                        now,
                        ttl,
                    ));
                }
            } else {
                proof {
                    assert(entries_map(self.entries@) =~= sweep_spec(
                        entries_map(orig.take(i + 1)),
                        now,
                        ttl,
                    ));
                }
            }
            proof {
                i = i + 1;
            }
        }
        proof {
            assert(orig.take(i) =~= orig);
        }
    }

    /// Issues `token` for `user_id` at `now`: sweeps, then inserts, unless
    /// the token is still live, which is a collision.
    pub fn push(&mut self, user_id: i64, token: String, now: u64) -> (r: Result<(), TokenError>)
        requires
            old(self).wf(),
        ensures
            final(self).wf(),
            final(self).ttl() == old(self).ttl(),
            final(self)@ == push_map(old(self)@, user_id, token@, now, old(self).ttl()),
            r is Ok <==> push_ok(old(self)@, token@, now, old(self).ttl()),
            r is Err ==> r == Err::<(), TokenError>(TokenError::Collision),
    {
        self.clean(now);
        let ghost entries0 = self.entries@;
        let mut idx: usize = 0;
        while idx < self.entries.len()
            invariant
                0 <= idx <= self.entries.len(),
                self.entries@ == entries0,
                forall|j: int| 0 <= j < idx ==> entries0[j].token@ != token@,
            decreases self.entries.len() - idx,
        {
            if self.entries[idx].token == token {
                proof {
                    assert(has_token(entries0, token@));
                    lemma_entries_map_props(entries0);
                }
                return Err(TokenError::Collision);
            }
            idx += 1;
        }
        proof {
            lemma_entries_map_props(entries0);
            assert(!has_token(entries0, token@));
            assert(push_ok(old(self)@, token@, now, old(self).ttl()));
        }
        let ghost k = token@;
        let entry = TokenEntry { token, info: TokenInfo { user_id, issued_at: now } };
        self.entries.push(entry);
        proof {
            assert(entries_map(self.entries@) == entries_map(entries0).insert(
                k,
                TokenInfo { user_id, issued_at: now },
            )) by {
                assert(self.entries@.drop_last() =~= entries0);
            }
        }
        Ok(())
    }

    /// Redeems `token` at `now`: sweeps, then removes and returns the
    /// owning user, or `None` when the token is absent or expired.
    pub fn pop(&mut self, token: &str, now: u64) -> (r: Result<Option<i64>, TokenError>)
        requires
            old(self).wf(),
        ensures
            final(self).wf(),
            final(self).ttl() == old(self).ttl(),
            final(self)@ == pop_map(old(self)@, token@, now, old(self).ttl()),
            r == Ok::<Option<i64>, TokenError>(
                pop_result(old(self)@, token@, now, old(self).ttl()),
            ),
    {
        self.clean(now);
        let ghost swept = self@;
        let ghost k = token@;
        let target: String = token.to_owned();
        let ttl = self.token_ttl_secs;
        let mut found: Option<i64> = None;
        let mut pending: Vec<TokenEntry> = Vec::new();
        core::mem::swap(&mut self.entries, &mut pending);
        let ghost orig: Seq<TokenEntry> = pending@;
        let ghost mut i: int = 0;
        while pending.len() > 0
            invariant
                self.token_ttl_secs == ttl,
                target@ == k,
                0 <= i <= orig.len(),
                pending@ == orig.skip(i),
                unique_tokens(orig),
                unique_tokens(pending@),
                unique_tokens(self.entries@),
                disjoint_tokens(self.entries@, pending@),
                entries_map(orig) == swept,
                entries_map(self.entries@) == entries_map(orig.take(i)).remove(k),
                found == if has_token(orig.take(i), k) {
                    Some(entries_map(orig.take(i))[k].user_id)
                } else {
                    None::<i64>
                },
            decreases pending.len(),
        {
            let ghost kept = self.entries@;
            let ghost rest = pending@;
            let e = pending.remove(0);
            proof {
                assert(e == orig[i]);
                assert(pending@ =~= orig.skip(i + 1));
                assert(orig.take(i + 1).drop_last() =~= orig.take(i));
                assert(orig.take(i + 1).last() == orig[i]);
                assert(entries_map(orig.take(i + 1)) == entries_map(orig.take(i)).insert(
                    e.token@,
                    e.info,
                ));
                assert(unique_tokens(orig.take(i)));
                assert(unique_tokens(orig.take(i + 1)));
                lemma_entries_map_props(orig.take(i));
                lemma_entries_map_props(orig.take(i + 1));
                assert(!has_token(orig.take(i), e.token@)) by {
                    if has_token(orig.take(i), e.token@) {
                        let b = choose|b: int|
                            0 <= b < orig.take(i).len() && orig.take(i)[b].token@ == e.token@;
                        assert(orig[b].token@ == orig[i].token@);
                    }
                }
                assert(unique_tokens(kept));
                assert(!has_token(kept, e.token@)) by {
                    if has_token(kept, e.token@) {
                        let a = choose|a: int| 0 <= a < kept.len() && kept[a].token@ == e.token@;
                        assert(kept[a].token@ != rest[0].token@);
                    }
                }
            }
            if e.token == target {
                found = Some(e.info.user_id);
                proof {
                    assert(e.token@ == k);
                    assert(entries_map(self.entries@) =~= entries_map(orig.take(i + 1)).remove(k));
                    assert(has_token(orig.take(i + 1), k)) by {
                        assert(orig.take(i + 1)[i].token@ == k);
                    }
                    assert(entries_map(orig.take(i + 1))[k] == e.info);
                }
            } else {
                proof {
                    assert(e.token@ != k);
                }
                self.entries.push(e);
                proof {
                    assert(entries_map(self.entries@) == entries_map(kept).insert(
                        e.token@,
                        e.info,
                    )) by {
                        assert(self.entries@.drop_last() =~= kept);
                        assert(self.entries@.last() == e);
                    }
                    assert(entries_map(self.entries@) =~= entries_map(orig.take(i + 1)).remove(k));
                    assert(has_token(orig.take(i + 1), k) == has_token(orig.take(i), k)) by {
                        if has_token(orig.take(i + 1), k) {
                            let b = choose|b: int|
                                0 <= b < orig.take(i + 1).len() && (#[trigger] orig.take(i + 1)[b]).token@
                                    == k;
                            if b < i {
                                assert(orig.take(i)[b].token@ == k);
                            } else {
                                assert(orig.take(i + 1)[i].token@ == e.token@);
                            }
                        } else {
                            if has_token(orig.take(i), k) {
                                let b = choose|b: int|
                                    0 <= b < orig.take(i).len() && orig.take(i)[b].token@ == k;
                                assert(orig.take(i + 1)[b].token@ == k);
                            }
                        }
                    }
                }
            }
            proof {
                i = i + 1;
            }
        }
        proof {
            assert(orig.take(i) =~= orig);
            lemma_entries_map_props(orig);
        }
        Ok(found)
    }
}

/// The characters a generated token may contain.
pub open spec fn is_token_char(c: char) -> bool {
    ('a' <= c && c <= 'z') || ('A' <= c && c <= 'Z') || ('0' <= c && c <= '9')
}

/// Relies on `rand`'s `Alphanumeric` distribution: `sample_string` draws
/// exactly `len` bytes uniformly from a-z, A-Z and 0-9 and returns them as
/// a string. Nothing more is assumed: the result is random, so only what
/// holds of every outcome is stated.
#[verifier::external_body]
pub fn generate_token() -> (token: String)
    ensures
        token@.len() == 30,
        forall|i: int| 0 <= i < 30 ==> is_token_char(#[trigger] token@[i]),
{
    rand::distr::SampleString::sample_string(&rand::distr::Alphanumeric, &mut rand::rng(), 30)
}

/// One-time use: a token issued for a user redeems once, for that user,
/// before its expiry; any later redemption of the same token yields
/// nothing, at whatever time it is tried.
pub proof fn lemma_single_use(
    m: Map<Seq<char>, TokenInfo>,
    user_id: i64,
    token: Seq<char>,
    t_issue: u64,
    t_first: u64,
    t_again: u64,
    ttl: u64,
)
    requires
        push_ok(m, token, t_issue, ttl),
        t_first < t_issue + ttl,
    ensures
        pop_result(push_map(m, user_id, token, t_issue, ttl), token, t_first, ttl) == Some(
            user_id,
        ),
        pop_result(
            pop_map(push_map(m, user_id, token, t_issue, ttl), token, t_first, ttl),
            token,
            t_again,
            ttl,
        ) is None,
{
}

/// No collision tolerance: while a token is live, issuing the same token
/// again fails.
pub proof fn lemma_collision_rejected(
    m: Map<Seq<char>, TokenInfo>,
    user_id: i64,
    token: Seq<char>,
    t_issue: u64,
    t_retry: u64,
    ttl: u64,
)
    requires
        push_ok(m, token, t_issue, ttl),
        t_retry < t_issue + ttl,
    ensures
        !push_ok(push_map(m, user_id, token, t_issue, ttl), token, t_retry, ttl),
{
}

/// After a token is redeemed, the same token may be issued again, at any
/// later moment.
pub proof fn lemma_reissue_after_redeem(
    m: Map<Seq<char>, TokenInfo>,
    token: Seq<char>,
    t_redeem: u64,
    t_new: u64,
    ttl: u64,
)
    ensures
        push_ok(pop_map(m, token, t_redeem, ttl), token, t_new, ttl),
{
}

/// After a token has expired, the same token may be issued again.
pub proof fn lemma_reissue_after_expiry(
    m: Map<Seq<char>, TokenInfo>,
    user_id: i64,
    token: Seq<char>,
    t_issue: u64,
    t_new: u64,
    ttl: u64,
)
    requires
        push_ok(m, token, t_issue, ttl),
        t_new >= t_issue + ttl,
    ensures
        push_ok(push_map(m, user_id, token, t_issue, ttl), token, t_new, ttl),
{
}

/// Time-to-live of zero: a token issued under ttl 0 is already expired at
/// any redemption moment, so redeeming yields nothing.
pub proof fn lemma_ttl_zero(
    m: Map<Seq<char>, TokenInfo>,
    user_id: i64,
    token: Seq<char>,
    t_issue: u64,
    t_redeem: u64,
)
    requires
        push_ok(m, token, t_issue, 0),
        t_issue <= t_redeem,
    ensures
        pop_result(push_map(m, user_id, token, t_issue, 0), token, t_redeem, 0) is None,
{
}

/// Independence: two distinct live tokens redeem for their own users, in
/// either order, and each redeems only once.
pub proof fn lemma_token_independence(
    m: Map<Seq<char>, TokenInfo>,
    u1: i64,
    u2: i64,
    tok1: Seq<char>,
    tok2: Seq<char>,
    t1: u64,
    t2: u64,
    tr1: u64,
    tr2: u64,
    t_again1: u64,
    t_again2: u64,
    ttl: u64,
)
    requires
        tok1 != tok2,
        push_ok(m, tok1, t1, ttl),
        push_ok(push_map(m, u1, tok1, t1, ttl), tok2, t2, ttl),
        t2 < t1 + ttl,
        tr1 < t1 + ttl,
        tr1 < t2 + ttl,
        tr2 < t2 + ttl,
    ensures
        ({
            let m2 = push_map(push_map(m, u1, tok1, t1, ttl), u2, tok2, t2, ttl);
            &&& pop_result(m2, tok1, tr1, ttl) == Some(u1)
            &&& pop_result(pop_map(m2, tok1, tr1, ttl), tok2, tr2, ttl) == Some(u2)
            &&& pop_result(pop_map(m2, tok1, tr1, ttl), tok1, t_again1, ttl) is None
            &&& pop_result(
                pop_map(pop_map(m2, tok1, tr1, ttl), tok2, tr2, ttl),
                tok2,
                t_again2,
                ttl,
            ) is None
        }),
{
}

} // verus!
