//! The session cache: the entry record with its exact text codec, the
//! validity rule that gates re-authentication, and the session-id and
//! path composition. Reading and writing the privileged cache directory
//! is the surrounding process's job; it hands file contents in and out
//! as plain strings.

use vstd::prelude::*;
use vstd::string::StrSliceExecFns;
use vstd::string::StringExecFns;
use crate::text::str_eq;
use crate::text::match_at;
use crate::text::matches_at;
use crate::text::parse_digits;
use crate::text::digits_end;
use crate::text::is_digit;
use crate::text::val_of;
use crate::text::dec_of;
use crate::text::dec_signed;
use crate::text::lemma_dec_of;
use crate::text::lemma_digits_end;
use crate::text::lemma_digits_end_of_run;
use crate::text::base_name;
use crate::text::u32_to_dec;
use crate::text::i64_to_dec;
use crate::user::UserIdentity;

verus! {

/// One cached authentication: when it happened and which target uid it
/// authenticated for.
#[derive(Debug, Clone, Copy, PartialEq, Eq, Structural)]
pub struct CacheEntry {
    pub timestamp: i64,
    pub uid: u32,
}

impl CacheEntry {
    pub fn new(timestamp: i64, uid: u32) -> (r: Self)
        ensures
            r.timestamp == timestamp,
            r.uid == uid,
    {
        CacheEntry { timestamp, uid }
    }

    /// The exact text an entry is stored as.
    pub open spec fn content_spec(&self) -> Seq<char> {
        "timestamp = "@ + dec_signed(self.timestamp as int) + "\nuid = "@ + dec_of(self.uid as int)
            + "\n"@
    }

    /// Renders the entry in its storage form.
    pub fn to_content(&self) -> (r: String)
        ensures
            r@ == self.content_spec(),
    {
        let mut s = String::from_str("timestamp = ");
        let ts = i64_to_dec(self.timestamp);
        s.append(ts.as_str());
        s.append("\nuid = ");
        let u = u32_to_dec(self.uid);
        s.append(u.as_str());
        s.append("\n");
        assert(s@ =~= self.content_spec());
        s
    }

    /// Parses stored text back into an entry. Exactly the strings that
    /// `to_content` produces are accepted: parsing succeeds if and only
    /// if `s` is the canonical encoding of some entry, and then returns
    /// that entry.
    pub fn from_content(s: &str) -> (r: Option<CacheEntry>)
        ensures
            r matches Some(e) ==> s@ == e.content_spec(),
            forall|e: CacheEntry| s@ == #[trigger] e.content_spec() ==> r == Some(e),
    {
        match Self::parse_content(s) {
            Option::None => Option::None,
            Option::Some(entry) => {
                let enc = entry.to_content();
                if str_eq(enc.as_str(), s) {
                    Option::Some(entry)
                } else {
                    Option::None
                }
            },
        }
    }

    /// The scanning half of `from_content`: reads the two fields out of
    /// text of the expected shape. Complete on canonical encodings; the
    /// re-encoding comparison in `from_content` supplies soundness.
    fn parse_content(s: &str) -> (r: Option<CacheEntry>)
        ensures
            forall|e: CacheEntry| s@ == #[trigger] e.content_spec() ==> r == Some(e),
    {
        let n = s.unicode_len();
        if !match_at(s, 0, "timestamp = ") {
            proof {
                assert forall|e: CacheEntry| s@ == #[trigger] e.content_spec() implies false by {
                    lemma_content_decomp(e, s@);
                }
            }
            return Option::None;
        }
        let l1 = "timestamp = ".unicode_len();
        assert(l1 <= n);
        let neg: bool = if l1 < n {
            s.get_char(l1) == '-'
        } else {
            false
        };
        let dstart: usize = if neg {
            l1 + 1
        } else {
            l1
        };
        proof {
            assert forall|e: CacheEntry| s@ == #[trigger] e.content_spec() implies neg == (
            e.timestamp < 0) && dstart == spec_dstart(e) by {
                lemma_content_decomp(e, s@);
            }
        }
        let (tv, i2) = match parse_digits(s, dstart) {
            Option::Some(x) => x,
            Option::None => {
                proof {
                    assert forall|e: CacheEntry| s@ == #[trigger] e.content_spec() implies false by {
                        lemma_content_decomp(e, s@);
                    }
                }
                return Option::None;
            },
        };
        proof {
            lemma_digits_end(s@, dstart as int);
            assert(i2 <= n);
            assert forall|e: CacheEntry| s@ == #[trigger] e.content_spec() implies tv
                == spec_mag(e) && i2 == spec_dend(e) by {
                lemma_content_decomp(e, s@);
            }
        }
        let ts: i64 = if neg {
            if tv > 9223372036854775808u64 {
                proof {
                    assert forall|e: CacheEntry| s@ == #[trigger] e.content_spec() implies false by {
                        lemma_content_decomp(e, s@);
                    }
                }
                return Option::None;
            }
            if tv == 9223372036854775808u64 {
                i64::MIN
            } else {
                -(tv as i64)
            }
        } else {
            if tv > i64::MAX as u64 {
                proof {
                    assert forall|e: CacheEntry| s@ == #[trigger] e.content_spec() implies false by {
                        lemma_content_decomp(e, s@);
                    }
                }
                return Option::None;
            }
            tv as i64
        };
        if !match_at(s, i2, "\nuid = ") {
            proof {
                assert forall|e: CacheEntry| s@ == #[trigger] e.content_spec() implies false by {
                    lemma_content_decomp(e, s@);
                }
            }
            return Option::None;
        }
        let l2 = "\nuid = ".unicode_len();
        let i3 = i2 + l2;
        let (uv, i4) = match parse_digits(s, i3) {
            Option::Some(x) => x,
            Option::None => {
                proof {
                    assert forall|e: CacheEntry| s@ == #[trigger] e.content_spec() implies false by {
                        lemma_content_decomp(e, s@);
                    }
                }
                return Option::None;
            },
        };
        proof {
            lemma_digits_end(s@, i3 as int);
            assert(i4 <= n);
        }
        if uv > u32::MAX as u64 {
            proof {
                assert forall|e: CacheEntry| s@ == #[trigger] e.content_spec() implies false by {
                    lemma_content_decomp(e, s@);
                }
            }
            return Option::None;
        }
        if !match_at(s, i4, "\n") {
            proof {
                assert forall|e: CacheEntry| s@ == #[trigger] e.content_spec() implies false by {
                    lemma_content_decomp(e, s@);
                }
            }
            return Option::None;
        }
        if i4 != n - 1 {
            proof {
                reveal_strlit("\n");
                assert forall|e: CacheEntry| s@ == #[trigger] e.content_spec() implies false by {
                    lemma_content_decomp(e, s@);
                }
            }
            return Option::None;
        }
        let entry = CacheEntry { timestamp: ts, uid: uv as u32 };
        proof {
            assert forall|e: CacheEntry| s@ == #[trigger] e.content_spec() implies entry == e by {
                lemma_content_decomp(e, s@);
            }
        }
        Option::Some(entry)
    }
}

/// The magnitude of an entry's timestamp.
pub open spec fn spec_mag(e: CacheEntry) -> int {
    if e.timestamp < 0 {
        -(e.timestamp as int)
    } else {
        e.timestamp as int
    }
}

/// Where an entry's timestamp digits start in its encoding.
pub open spec fn spec_dstart(e: CacheEntry) -> int {
    if e.timestamp < 0 {
        "timestamp = "@.len() as int + 1
    } else {
        "timestamp = "@.len() as int
    }
}

/// Where an entry's timestamp digits end in its encoding.
pub open spec fn spec_dend(e: CacheEntry) -> int {
    spec_dstart(e) + dec_of(spec_mag(e)).len()
}

/// How a canonical encoding decomposes, position by position.
proof fn lemma_content_decomp(e: CacheEntry, s: Seq<char>)
    requires
        s == e.content_spec(),
    ensures
        matches_at(s, 0, "timestamp = "@),
        "timestamp = "@.len() < s.len(),
        e.timestamp < 0 ==> s["timestamp = "@.len() as int] == '-',
        e.timestamp >= 0 ==> is_digit(s["timestamp = "@.len() as int]) && s["timestamp = "@.len() as int] != '-',
        spec_dstart(e) < spec_dend(e),
        spec_dend(e) <= s.len(),
        digits_end(s, spec_dstart(e)) == spec_dend(e),
        val_of(s.subrange(spec_dstart(e), spec_dend(e))) == spec_mag(e),
        spec_mag(e) <= 0x8000000000000000,
        e.timestamp >= 0 ==> spec_mag(e) <= i64::MAX,
        matches_at(s, spec_dend(e), "\nuid = "@),
        digits_end(s, spec_dend(e) + "\nuid = "@.len()) == spec_dend(e) + "\nuid = "@.len()
            + dec_of(e.uid as int).len(),
        val_of(
            s.subrange(
                spec_dend(e) + "\nuid = "@.len(),
                spec_dend(e) + "\nuid = "@.len() + dec_of(e.uid as int).len(),
            ),
        ) == e.uid as int,
        spec_dend(e) + "\nuid = "@.len() + dec_of(e.uid as int).len() > spec_dend(e)
            + "\nuid = "@.len(),
        matches_at(
            s,
            spec_dend(e) + "\nuid = "@.len() + dec_of(e.uid as int).len(),
            "\n"@,
        ),
        s.len() == spec_dend(e) + "\nuid = "@.len() + dec_of(e.uid as int).len() + 1,
{
    reveal_strlit("-");
    reveal_strlit("\nuid = ");
    reveal_strlit("\n");
    let a = "timestamp = "@;
    let t = e.timestamp as int;
    let mag = spec_mag(e);
    let d = dec_signed(t);
    let b = "\nuid = "@;
    let u = dec_of(e.uid as int);
    let c = "\n"@;
    lemma_dec_of(mag);
    lemma_dec_of(e.uid as int);
    assert(s == a + d + b + u + c);
    if t < 0 {
        assert(d == "-"@ + dec_of(mag));
        assert(d.len() == 1 + dec_of(mag).len());
        assert(d[0] == '-');
        assert(forall|k: int| 0 <= k < dec_of(mag).len() ==> d[1 + k] == #[trigger] dec_of(mag)[k]);
    } else {
        assert(d == dec_of(mag));
    }
    let ds = spec_dstart(e);
    let de = spec_dend(e);
    assert(s.subrange(0, a.len() as int) =~= a);
    assert(s.subrange(ds, de) =~= dec_of(mag));
    assert(val_of(s.subrange(ds, de)) == mag);
    // the character after the timestamp digits is the newline of the
    // "\nuid = " chunk, which is not a digit
    assert(s[de] == b[0]);
    assert(b[0] == '\n');
    assert(!is_digit('\n'));
    lemma_digits_end_of_run(s, ds, dec_of(mag).len() as int);
    assert(s.subrange(de, de + b.len()) =~= b);
    let us = de + b.len();
    let ue = us + u.len();
    assert(s.subrange(us, ue) =~= u);
    assert(val_of(s.subrange(us, ue)) == e.uid as int);
    assert(s[ue] == c[0]);
    assert(c[0] == '\n');
    lemma_digits_end_of_run(s, us, u.len() as int);
    assert(s.subrange(ue, ue + c.len()) =~= c);
    if t < 0 {
        assert(s[a.len() as int] == d[0]);
    } else {
        assert(s[a.len() as int] == d[0]);
        assert(is_digit(d[0]));
        assert(('-' as u32) < 48);
    }
}

/// A cache entry gates re-authentication only while it is fresh and for
/// the target uid it was written for: valid iff `now - timestamp` is
/// strictly less than the timeout and the uid matches. At the instant
/// `now - timestamp == timeout` the entry is already invalid.
pub open spec fn entry_valid_spec(e: CacheEntry, now: int, timeout: int, target_uid: u32) -> bool {
    now - e.timestamp < timeout && e.uid == target_uid
}

/// Decides an entry's validity.
pub fn check_entry(entry: &CacheEntry, now: i64, timeout: i64, target_uid: u32) -> (r: bool)
    ensures
        r == entry_valid_spec(*entry, now as int, timeout as int, target_uid),
{
    let diff: i128 = now as i128 - entry.timestamp as i128;
    diff < timeout as i128 && entry.uid == target_uid
}

/// Law: validity is exactly freshness plus the uid match, and it ends
/// the instant the age reaches the timeout.
pub proof fn lemma_cache_expiry(e: CacheEntry, now: int, timeout: int, target_uid: u32)
    ensures
        entry_valid_spec(e, now, timeout, target_uid) <==> (now - e.timestamp < timeout && e.uid
            == target_uid),
        now - e.timestamp == timeout ==> !entry_valid_spec(e, now, timeout, target_uid),
{
}

/// Law: an entry written for one target uid is never valid for another,
/// however fresh it is.
pub proof fn lemma_cache_user_isolation(e: CacheEntry, now: int, timeout: int, a: u32, b: u32)
    requires
        e.uid == a,
        a != b,
    ensures
        !entry_valid_spec(e, now, timeout, b),
{
}

/// The whole cache check, once the stored text (if any) has been read:
/// absent, unparsable, stale or wrong-target entries are all invalid,
/// and a fresh matching entry is exactly what validates.
pub fn check_cache_content(content: Option<&String>, now: i64, timeout: i64, target_uid: u32) -> (r:
    bool)
    ensures
        r == match content {
            Option::Some(c) => exists|e: CacheEntry|
                c@ == #[trigger] e.content_spec() && entry_valid_spec(
                    e,
                    now as int,
                    timeout as int,
                    target_uid,
                ),
            Option::None => false,
        },
{
    match content {
        Option::None => false,
        Option::Some(c) => match CacheEntry::from_content(c.as_str()) {
            Option::None => false,
            Option::Some(entry) => {
                let ok = check_entry(&entry, now, timeout, target_uid);
                proof {
                    if ok {
                        assert(c@ == entry.content_spec() && entry_valid_spec(
                            entry,
                            now as int,
                            timeout as int,
                            target_uid,
                        ));
                    }
                }
                ok
            },
        },
    }
}

/// The per-user cache directory path.
pub open spec fn cache_dir_spec(name: Seq<char>) -> Seq<char> {
    "/var/run/udo/"@ + name
}

/// The path of the per-user cache directory.
pub fn get_cache_dir(user: &UserIdentity) -> (r: String)
    ensures
        r@ == cache_dir_spec(user.name@),
{
    let mut s = String::from_str("/var/run/udo/");
    s.append(user.name.as_str());
    s
}

/// A user's cache location: the per-user directory the entry files live
/// in. The surrounding process creates, reads and clears it while
/// elevated; this type only composes its paths.
#[derive(Debug, Clone)]
pub struct Cache {
    pub dir: String,
}

impl Cache {
    /// The cache location for one invoking user.
    pub fn new(user: &UserIdentity) -> (r: Self)
        ensures
            r.dir@ == cache_dir_spec(user.name@),
    {
        Cache { dir: get_cache_dir(user) }
    }

    /// The path of one session's entry file inside this cache.
    pub fn entry_path(&self, id: &str) -> (r: String)
        ensures
            r@ == self.dir@ + "/"@ + id@,
    {
        let mut s = self.dir.clone();
        s.append("/");
        s.append(id);
        s
    }
}

/// A session id: the invoking uid, the controlling terminal's base name
/// and the parent process id, joined with dashes. It ties a cached
/// authentication to one terminal session, not just one user.
pub open spec fn session_id_spec(uid: int, tty: Seq<char>, pid: int) -> Seq<char> {
    dec_of(uid) + "-"@ + tty + "-"@ + dec_signed(pid)
}

/// Builds a session id from its three components.
pub fn session_id(uid: u32, tty: &str, pid: i32) -> (r: String)
    ensures
        r@ == session_id_spec(uid as int, tty@, pid as int),
{
    let mut s = u32_to_dec(uid);
    s.append("-");
    s.append(tty);
    s.append("-");
    let p = i64_to_dec(pid as i64);
    s.append(p.as_str());
    assert(s@ =~= session_id_spec(uid as int, tty@, pid as int));
    s
}

/// Relies on nix::unistd::ttyname on stdin: the path of the controlling
/// terminal device, or `None` when stdin is not a terminal.
#[verifier::external_body]
fn tty_path() -> (r: Option<String>) {
    match nix::unistd::ttyname(std::io::stdin()) {
        Ok(p) => Some(p.to_string_lossy().to_string()),
        Err(_) => None,
    }
}

/// Relies on nix::unistd::getppid: the parent process id.
#[verifier::external_body]
fn parent_pid() -> (r: i32) {
    nix::unistd::getppid().as_raw()
}

/// The session id of the current invocation: built from the invoking
/// user's uid, the controlling terminal and the parent process. `None`
/// when there is no controlling terminal.
pub fn get_cache_id(user: &UserIdentity) -> (r: Option<String>)
    ensures
        r matches Some(id) ==> exists|tty: Seq<char>, pid: int|
            id@ == session_id_spec(user.uid as int, tty, pid),
{
    let path = match tty_path() {
        Option::Some(p) => p,
        Option::None => {
            return Option::None;
        },
    };
    let tty = base_name(path.as_str());
    let pid = parent_pid();
    let id = session_id(user.uid, tty.as_str(), pid);
    proof {
        assert(id@ == session_id_spec(user.uid as int, tty@, pid as int));
    }
    Option::Some(id)
}

} // verus!
