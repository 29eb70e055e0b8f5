//! Short-lived, single-use authorization tokens.
//!
//! Time is handed in by the caller as milliseconds on a monotone clock, so
//! that expiry is a plain comparison of integers.
use crate::text::str_eq;
use rand::Rng;
use vstd::prelude::*;

verus! {

/// What a session authenticated by a token may do.
#[derive(Debug, Clone, Copy, PartialEq, Eq, Structural)]
pub enum Permissions {
    ViewOnly,
    FullControl,
}

/// How long a token stays redeemable, in milliseconds (one hour).
pub const KEY_LIFETIME_MS: u64 = 3_600_000;

/// Number of characters in a token.
pub const KEY_LENGTH: usize = 32;

/// An ASCII letter or digit.
pub open spec fn is_alphanumeric(c: char) -> bool {
    ('a' <= c && c <= 'z') || ('A' <= c && c <= 'Z') || ('0' <= c && c <= '9')
}

/// The shape of every token: 32 ASCII letters and digits.
pub open spec fn is_token(s: Seq<char>) -> bool {
    &&& s.len() == KEY_LENGTH
    &&& forall|i: int| 0 <= i < s.len() ==> is_alphanumeric(#[trigger] s[i])
}

/// A token created at `created` is still redeemable at `now`: less than
/// an hour has passed (no time at all if the clock reads earlier).
pub open spec fn is_live(created: u64, now: u64) -> bool {
    now < created + KEY_LIFETIME_MS
}

/// The store after dropping every expired token.
pub open spec fn swept(
    m: Map<Seq<char>, (Permissions, u64)>,
    now: u64,
) -> Map<Seq<char>, (Permissions, u64)> {
    Map::new(|t: Seq<char>| m.contains_key(t) && is_live(m[t].1, now), |t: Seq<char>| m[t])
}

/// What redeeming `t` at `now` yields: its permission if it is live.
pub open spec fn redeemed(
    m: Map<Seq<char>, (Permissions, u64)>,
    t: Seq<char>,
    now: u64,
) -> Option<Permissions> {
    if swept(m, now).contains_key(t) {
        Some(swept(m, now)[t].0)
    } else {
        None
    }
}

/// The store after redeeming `t` at `now`.
pub open spec fn after_redeem(
    m: Map<Seq<char>, (Permissions, u64)>,
    t: Seq<char>,
    now: u64,
) -> Map<Seq<char>, (Permissions, u64)> {
    swept(m, now).remove(t)
}

/// The store after adding `t` with `p` at `now`, then sweeping.
pub open spec fn after_create(
    m: Map<Seq<char>, (Permissions, u64)>,
    t: Seq<char>,
    p: Permissions,
    now: u64,
) -> Map<Seq<char>, (Permissions, u64)> {
    swept(m.insert(t, (p, now)), now)
}

struct KeyEntry {
    token: String,
    permissions: Permissions,
    created_ms: u64,
}

spec fn entries_map(s: Seq<KeyEntry>) -> Map<Seq<char>, (Permissions, u64)>
    decreases s.len(),
{
    if s.len() == 0 {
        Map::empty()
    } else {
        entries_map(s.drop_last()).insert(
            s.last().token@,
            (s.last().permissions, s.last().created_ms),
        )
    }
}

spec fn distinct_tokens(s: Seq<KeyEntry>) -> bool {
    forall|i: int, j: int| 0 <= i < j < s.len() ==> s[i].token@ != s[j].token@
}

proof fn lemma_entries_map_domain(s: Seq<KeyEntry>, t: Seq<char>)
    requires
        distinct_tokens(s),
    ensures
        entries_map(s).contains_key(t) <==> exists|i: int| 0 <= i < s.len() && s[i].token@ == t,
        forall|i: int|
            0 <= i < s.len() && s[i].token@ == t ==> entries_map(s)[t] == (
                s[i].permissions,
                s[i].created_ms,
            ),
    decreases s.len(),
{
    if s.len() > 0 {
        let p = s.drop_last();
        assert(distinct_tokens(p));
        lemma_entries_map_domain(p, t);
        if entries_map(s).contains_key(t) {
            if s.last().token@ == t {
                assert(s[s.len() - 1].token@ == t);
            } else {
                let i = choose|i: int| 0 <= i < p.len() && p[i].token@ == t;
                assert(s[i] == p[i]);
            }
        }
        assert forall|i: int| 0 <= i < s.len() && s[i].token@ == t implies entries_map(
            s,
        ).contains_key(t) by {
            if i < s.len() - 1 {
                assert(s[i] == p[i]);
            }
        }
        assert forall|i: int| 0 <= i < s.len() && s[i].token@ == t implies entries_map(s)[t] == (
            s[i].permissions,
            s[i].created_ms,
        ) by {
            if i < s.len() - 1 {
                assert(s[i] == p[i]);
            }
        }
    }
}

/// The token store: each token with its permission and creation time.
pub struct Keys {
    entries: Vec<KeyEntry>,
}

impl View for Keys {
    type V = Map<Seq<char>, (Permissions, u64)>;

    closed spec fn view(&self) -> Map<Seq<char>, (Permissions, u64)> {
        entries_map(self.entries@)
    }
}

impl Keys {
    /// No token occurs twice.
    pub closed spec fn wf(&self) -> bool {
        distinct_tokens(self.entries@)
    }

    /// An empty store.
    pub fn new() -> (r: Self)
        ensures
            r.wf(),
            r@ == Map::<Seq<char>, (Permissions, u64)>::empty(),
    {
        Keys { entries: Vec::new() }
    }

    /// Keeps the live entries whose token is not `drop`; returns the
    /// permission of a live entry with that token.
    fn retain_live(&mut self, now: u64, drop: Option<&str>) -> (r: Option<Permissions>)
        requires
            old(self).wf(),
        ensures
            final(self).wf(),
            drop is None ==> final(self)@ == swept(old(self)@, now) && r is None,
            drop matches Some(t) ==> final(self)@ == after_redeem(old(self)@, t@, now) && r
                == redeemed(old(self)@, t@, now),
    {
        let ghost old_entries = self.entries@;
        let mut kept: Vec<KeyEntry> = Vec::new();
        let mut found: Option<Permissions> = None;
        let mut i: usize = 0;
        let n = self.entries.len();
        while i < n
            invariant
                n == self.entries.len(),
                self.entries@ == old_entries,
                distinct_tokens(old_entries),
                0 <= i <= n,
                distinct_tokens(kept@),
                forall|k: int|
                    0 <= k < kept@.len() ==> exists|j: int|
                        0 <= j < i && #[trigger] kept@[k].token@ == old_entries[j].token@,
                drop is None ==> found is None && entries_map(kept@) == swept(
                    entries_map(old_entries.subrange(0, i as int)),
                    now,
                ),
                drop matches Some(t) ==> entries_map(kept@) == swept(
                    entries_map(old_entries.subrange(0, i as int)),
                    now,
                ).remove(t@) && found == redeemed(
                    entries_map(old_entries.subrange(0, i as int)),
                    t@,
                    now,
                ),
            decreases n - i,
        {
            let e = &self.entries[i];
            let ghost prefix = old_entries.subrange(0, i as int);
            let ghost next = old_entries.subrange(0, i as int + 1);
            assert(next.drop_last() == prefix);
            assert(distinct_tokens(prefix));
            proof {
                lemma_entries_map_domain(prefix, e.token@);
                assert forall|j: int| 0 <= j < prefix.len() implies prefix[j].token@ != e.token@ by {
                    assert(prefix[j] == old_entries[j]);
                }
            }
            let live = now < e.created_ms || now - e.created_ms < KEY_LIFETIME_MS;
            let dropped = match drop {
                Some(t) => str_eq(e.token.as_str(), t),
                None => false,
            };
            if live && dropped {
                found = Some(e.permissions);
            }
            if live && !dropped {
                let entry = KeyEntry {
                    token: e.token.clone(),
                    permissions: e.permissions,
                    created_ms: e.created_ms,
                };
                proof {
                    assert forall|k: int| 0 <= k < kept@.len() implies kept@[k].token@ != e.token@ by {
                        let j = choose|j: int|
                            0 <= j < i && #[trigger] kept@[k].token@ == old_entries[j].token@;
                        assert(old_entries[j].token@ != old_entries[i as int].token@);
                    }
                }
                let ghost before = kept@;
                kept.push(entry);
                assert(kept@.drop_last() == before);
                proof {
                    assert forall|k: int| 0 <= k < kept@.len() implies exists|j: int|
                        0 <= j < i + 1 && #[trigger] kept@[k].token@
                            == old_entries[j].token@ by {
                        if k < before.len() {
                            assert(kept@[k] == before[k]);
                        } else {
                            assert(kept@[k].token@ == old_entries[i as int].token@);
                        }
                    }
                }
            }
            proof {
                let pm = entries_map(prefix);
                let nm = entries_map(next);
                assert(next.last() == old_entries[i as int]);
                assert(swept(nm, now) =~= if live {
                    swept(pm, now).insert(e.token@, (e.permissions, e.created_ms))
                } else {
                    swept(pm, now)
                });
                if let Some(t) = drop {
                    assert(swept(nm, now).remove(t@) =~= if live && !dropped {
                        swept(pm, now).remove(t@).insert(e.token@, (e.permissions, e.created_ms))
                    } else {
                        swept(pm, now).remove(t@)
                    });
                }
            }
            i += 1;
        }
        assert(old_entries.subrange(0, n as int) == old_entries);
        self.entries = kept;
        found
    }

    /// Drops every token created an hour or more before `now`.
    pub fn remove_old_keys(&mut self, now: u64)
        requires
            old(self).wf(),
        ensures
            final(self).wf(),
            final(self)@ == swept(old(self)@, now),
    {
        self.retain_live(now, None);
    }

    /// Mints a fresh token with `permissions` at `now`, stores it, sweeps
    /// the expired ones and returns it.
    pub fn create_key(&mut self, permissions: Permissions, now: u64) -> (r: String)
        requires
            old(self).wf(),
        ensures
            final(self).wf(),
            is_token(r@),
            final(self)@ == after_create(old(self)@, r@, permissions, now),
    {
        let token = random_alphanumeric(KEY_LENGTH);
        self.retain_live(now, Some(token.as_str()));
        let ghost before = self.entries@;
        proof {
            lemma_entries_map_domain(before, token@);
        }
        self.entries.push(
            KeyEntry { token: token.clone(), permissions, created_ms: now },
        );
        proof {
            assert(self.entries@.drop_last() == before);
            assert forall|i: int, j: int|
                0 <= i < j < self.entries@.len() implies self.entries@[i].token@
                != self.entries@[j].token@ by {
                if j < before.len() {
                    assert(self.entries@[i] == before[i] && self.entries@[j] == before[j]);
                } else {
                    assert(self.entries@[i] == before[i]);
                }
            }
            assert(self@ =~= after_create(old(self)@, token@, permissions, now));
        }
        token
    }

    /// Sweeps expired tokens, then removes `key` and returns its permission
    /// if it was there.
    pub fn use_key(&mut self, key: &str, now: u64) -> (r: Option<Permissions>)
        requires
            old(self).wf(),
        ensures
            final(self).wf(),
            r == redeemed(old(self)@, key@, now),
            final(self)@ == after_redeem(old(self)@, key@, now),
    {
        self.retain_live(now, Some(key))
    }
}

/// A token redeems exactly once: right after it is minted with `p` at
/// `created`, redeeming it at `now1` yields `p` if less than an hour has
/// passed and nothing otherwise, and any later redemption yields nothing.
pub proof fn lemma_key_single_use(
    m: Map<Seq<char>, (Permissions, u64)>,
    t: Seq<char>,
    p: Permissions,
    created: u64,
    now1: u64,
    now2: u64,
)
    requires
        created <= now1,
    ensures
        redeemed(after_create(m, t, p, created), t, now1) == (if now1 < created + KEY_LIFETIME_MS {
            Some(p)
        } else {
            None
        }),
        redeemed(after_redeem(after_create(m, t, p, created), t, now1), t, now2) is None,
{
}

/// Relies on rand's `Alphanumeric` distribution sampled from the thread rng:
/// each draw is one of the 62 ASCII letters and digits; `len` draws are taken.
#[verifier::external_body]
fn random_alphanumeric(len: usize) -> (r: String)
    ensures
        r@.len() == len,
        forall|i: int| 0 <= i < r@.len() ==> is_alphanumeric(#[trigger] r@[i]),
{
    rand::rng().sample_iter(&rand::distr::Alphanumeric).take(len).map(char::from).collect()
}

} // verus!
