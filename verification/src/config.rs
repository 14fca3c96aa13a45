//! What the process is started with.

use crate::text::i64_of_text;
use crate::text::parse_i64;
use crate::text::split_on;
use crate::text::str_chars;
use crate::text::trim_str;
use crate::text::trimmed;
use vstd::prelude::*;
use vstd::string::StrSliceExecFns;

verus! {

/// The settings of a running bot.
#[derive(Debug, Clone)]
pub struct Config {
    pub bot_token: String,
    pub database_url: String,
    pub admins: Vec<i64>,
}

/// The identities that a run of list entries names: every entry that,
/// without the white space around it, is a decimal integer; the other
/// entries are passed over.
pub open spec fn admin_ids(entries: Seq<Seq<char>>) -> Seq<i64>
    decreases entries.len(),
{
    if entries.len() == 0 {
        Seq::empty()
    } else {
        let earlier = admin_ids(entries.drop_last());
        match i64_of_text(trimmed(entries.last())) {
            Some(id) => earlier.push(id),
            None => earlier,
        }
    }
}

/// Reads a comma-separated list of admin identities. Entries that are
/// empty or no integers are passed over.
pub fn parse_admins(raw: &str) -> (admins: Vec<i64>)
    ensures
        admins@ == admin_ids(split_on(raw@, ',')),
{
    let v = str_chars(raw);
    let n = v.len();
    let mut out: Vec<i64> = Vec::new();
    let mut start: usize = 0;
    let mut i: usize = 0;
    let ghost mut done: Seq<Seq<char>> = Seq::empty();
    assert(v@.subrange(0, 0) =~= Seq::<char>::empty());
    assert(split_on(v@.subrange(0, 0), ',') =~= done.push(v@.subrange(0, 0)));
    while i < n
        invariant
            v@ == raw@,
            n == v@.len(),
            start <= i <= n,
            split_on(v@.subrange(0, i as int), ',') == done.push(
                v@.subrange(start as int, i as int),
            ),
            out@ == admin_ids(done),
        decreases n - i,
    {
        let ghost longer = v@.subrange(0, i as int + 1);
        let ghost current = v@.subrange(start as int, i as int);
        proof {
            assert(longer.drop_last() == v@.subrange(0, i as int));
            assert(longer.last() == v@[i as int]);
        }
        if v[i] == ',' {
            let entry = raw.substring_char(start, i);
            proof {
                assert(done.push(current).drop_last() == done);
            }
            match parse_i64(trim_str(entry)) {
                Some(id) => {
                    out.push(id);
                },
                None => {},
            }
            proof {
                done = done.push(current);
                assert(v@.subrange(i as int + 1, i as int + 1) =~= Seq::<char>::empty());
            }
            start = i + 1;
        } else {
            proof {
                assert(current.push(v@[i as int]) =~= v@.subrange(start as int, i as int + 1));
                assert(done.push(current).last() == current);
                assert(done.push(current).update(done.len() as int, current.push(v@[i as int]))
                    =~= done.push(v@.subrange(start as int, i as int + 1)));
            }
        }
        i = i + 1;
    }
    let entry = raw.substring_char(start, n);
    proof {
        assert(v@.subrange(0, n as int) == v@);
        assert(done.push(v@.subrange(start as int, n as int)).drop_last() == done);
    }
    match parse_i64(trim_str(entry)) {
        Some(id) => {
            out.push(id);
        },
        None => {},
    }
    out
}

} // verus!
