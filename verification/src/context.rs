//! The fixed set of admins, handed in when the process starts.

use std::collections::HashSet;
use vstd::prelude::*;

verus! {

/// What every handler may consult: who is an admin.
pub struct AppContext {
    admins: HashSet<i64>,
}

impl AppContext {
    /// The identities that may use the admin panel.
    pub closed spec fn admin_set(&self) -> Set<i64> {
        self.admins@
    }

    /// A context whose admins are the given identities.
    pub fn new(admins: Vec<i64>) -> (ctx: AppContext)
        ensures
            ctx.admin_set() == admins@.to_set(),
    {
        let mut set: HashSet<i64> = HashSet::new();
        let mut i: usize = 0;
        while i < admins.len()
            invariant
                i <= admins@.len(),
                set@ == admins@.subrange(0, i as int).to_set(),
            decreases admins@.len() - i,
        {
            set.insert(admins[i]);
            proof {
                let shorter = admins@.subrange(0, i as int);
                let longer = admins@.subrange(0, i as int + 1);
                assert(longer == shorter.push(admins@[i as int]));
                assert(longer.to_set() =~= shorter.to_set().insert(admins@[i as int])) by {
                    assert forall|x: i64| longer.to_set().contains(x) <==> shorter.to_set().insert(
                        admins@[i as int],
                    ).contains(x) by {
                        if longer.contains(x) {
                            let k = choose|k: int| 0 <= k < longer.len() && longer[k] == x;
                            if k < shorter.len() {
                                assert(shorter[k] == x);
                            }
                        }
                        if shorter.contains(x) {
                            let k = choose|k: int| 0 <= k < shorter.len() && shorter[k] == x;
                            assert(longer[k] == x);
                        }
                        if x == admins@[i as int] {
                            assert(longer[i as int] == x);
                        }
                    }
                }
            }
            i = i + 1;
        }
        assert(admins@.subrange(0, i as int) == admins@);
        AppContext { admins: set }
    }

    /// Whether `tg_id` is an admin.
    pub fn is_admin(&self, tg_id: i64) -> (r: bool)
        ensures
            r == self.admin_set().contains(tg_id),
    {
        self.admins.contains(&tg_id)
    }
}

} // verus!
