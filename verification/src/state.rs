use vstd::prelude::*;

verus! {

/// Configuration written once at instantiation and immutable thereafter.
#[derive(Clone, Debug)]
pub struct Config {
    /// Identity authorized to perform the initial funding transfer.
    pub admin: String,
    /// Identity of the input token contract whose transfers credit `red_tokens`.
    pub red_token_address: String,
    /// Identity of the input token contract whose transfers credit `blue_tokens`.
    pub blue_token_address: String,
    /// Identity of the token contract whose balance is distributed on claim.
    pub token_address: String,
    /// Total supply of the distributed token, fixed at instantiation.
    pub total_supply: u128,
}

/// Accumulated input-token balances of one depositor.
#[derive(Clone, Copy, Debug, PartialEq, Eq, Structural)]
pub struct Deposit {
    pub red_tokens: u128,
    pub blue_tokens: u128,
}

/// One row of the deposit ledger.
struct LedgerEntry {
    addr: String,
    dep: Deposit,
}

/// Persistent mapping from depositor identity to a pair of accumulated
/// amounts. A record is never deleted: it may reach (0, 0) and persists,
/// which is distinct from the absence of a record.
pub struct DepositLedger {
    entries: Vec<LedgerEntry>,
}

spec fn unique_addrs(s: Seq<LedgerEntry>) -> bool {
    forall|i: int, j: int| 0 <= i < j < s.len() ==> s[i].addr@ != s[j].addr@
}

spec fn entries_map(s: Seq<LedgerEntry>) -> Map<Seq<char>, Deposit>
    decreases s.len(),
{
    if s.len() == 0 {
        Map::empty()
    } else {
        entries_map(s.drop_last()).insert(s.last().addr@, s.last().dep)
    }
}

impl View for DepositLedger {
    type V = Map<Seq<char>, Deposit>;

    closed spec fn view(&self) -> Map<Seq<char>, Deposit> {
        entries_map(self.entries@)
    }
}

proof fn lemma_entries_map_domain(s: Seq<LedgerEntry>, k: Seq<char>)
    ensures
        entries_map(s).contains_key(k) <==> (exists|i: int|
            0 <= i < s.len() && #[trigger] s[i].addr@ == k),
    decreases s.len(),
{
    if s.len() > 0 {
        let t = s.drop_last();
        lemma_entries_map_domain(t, k);
        if s.last().addr@ == k {
            assert(s[s.len() - 1].addr@ == k);
        } else {
            if entries_map(s).contains_key(k) {
                let i = choose|i: int| 0 <= i < t.len() && #[trigger] t[i].addr@ == k;
                assert(s[i].addr@ == k);
            }
            if exists|i: int| 0 <= i < s.len() && #[trigger] s[i].addr@ == k {
                let i = choose|i: int| 0 <= i < s.len() && #[trigger] s[i].addr@ == k;
                assert(i < s.len() - 1);
                assert(t[i].addr@ == k);
            }
        }
    }
}

proof fn lemma_entries_map_get(s: Seq<LedgerEntry>, i: int)
    requires
        unique_addrs(s),
        0 <= i < s.len(),
    ensures
        entries_map(s).contains_key(s[i].addr@),
        entries_map(s)[s[i].addr@] == s[i].dep,
    decreases s.len(),
{
    if i < s.len() - 1 {
        let t = s.drop_last();
        assert forall|a: int, b: int| 0 <= a < b < t.len() implies t[a].addr@ != t[b].addr@ by {
            assert(t[a] == s[a]);
            assert(t[b] == s[b]);
        }
        assert(t[i] == s[i]);
        lemma_entries_map_get(t, i);
        assert(s.last().addr@ != s[i].addr@);
    }
}

proof fn lemma_entries_map_update(s: Seq<LedgerEntry>, i: int, e: LedgerEntry)
    requires
        unique_addrs(s),
        0 <= i < s.len(),
        e.addr@ == s[i].addr@,
    ensures
        entries_map(s.update(i, e)) == entries_map(s).insert(e.addr@, e.dep),
        unique_addrs(s.update(i, e)),
    decreases s.len(),
{
    let u = s.update(i, e);
    assert forall|a: int, b: int| 0 <= a < b < u.len() implies u[a].addr@ != u[b].addr@ by {
        assert(s[a].addr@ != s[b].addr@);
    }
    if i == s.len() - 1 {
        assert(u.drop_last() =~= s.drop_last());
        assert(u.last() == e);
        assert(entries_map(u) =~= entries_map(s).insert(e.addr@, e.dep));
    } else {
        let t = s.drop_last();
        assert forall|a: int, b: int| 0 <= a < b < t.len() implies t[a].addr@ != t[b].addr@ by {
            assert(t[a] == s[a]);
            assert(t[b] == s[b]);
        }
        assert(t[i] == s[i]);
        lemma_entries_map_update(t, i, e);
        assert(u.drop_last() =~= t.update(i, e));
        assert(u.last() == s.last());
        assert(e.addr@ != s.last().addr@);
        assert(entries_map(u) =~= entries_map(s).insert(e.addr@, e.dep));
    }
}

proof fn lemma_entries_map_push(s: Seq<LedgerEntry>, e: LedgerEntry)
    ensures
        entries_map(s.push(e)) == entries_map(s).insert(e.addr@, e.dep),
{
    assert(s.push(e).drop_last() =~= s);
    assert(s.push(e).last() == e);
}

impl DepositLedger {
    #[verifier::type_invariant]
    spec fn wf(self) -> bool {
        unique_addrs(self.entries@)
    }

    /// An empty ledger, holding no depositor records.
    pub fn new() -> (r: DepositLedger)
        ensures
            r@ == Map::<Seq<char>, Deposit>::empty(),
    {
        let r = DepositLedger { entries: Vec::new() };
        proof {
            assert(r@ =~= Map::<Seq<char>, Deposit>::empty());
        }
        r
    }

    /// Look up the record of one depositor; `None` is the "no deposit" state.
    pub fn get(&self, addr: &String) -> (r: Option<Deposit>)
        ensures
            match r {
                Some(dep) => self@.contains_key(addr@) && dep == self@[addr@],
                None => !self@.contains_key(addr@),
            },
    {
        proof {
            use_type_invariant(&*self);
        }
        let n = self.entries.len();
        let mut i: usize = 0;
        while i < n
            invariant
                n == self.entries@.len(),
                i <= n,
                unique_addrs(self.entries@),
                self@ == entries_map(self.entries@),
                forall|j: int| 0 <= j < i ==> #[trigger] self.entries@[j].addr@ != addr@,
            decreases n - i,
        {
            if self.entries[i].addr == *addr {
                let dep = self.entries[i].dep;
                proof {
                    lemma_entries_map_get(self.entries@, i as int);
                }
                return Some(dep);
            }
            i += 1;
        }
        proof {
            lemma_entries_map_domain(self.entries@, addr@);
        }
        None
    }

    /// Create or replace the record of one depositor.
    pub fn set(&mut self, addr: &String, dep: Deposit)
        ensures
            final(self)@ == old(self)@.insert(addr@, dep),
    {
        proof {
            use_type_invariant(&*self);
        }
        let ghost orig: Seq<LedgerEntry> = self.entries@;
        let mut entries: Vec<LedgerEntry> = Vec::new();
        core::mem::swap(&mut entries, &mut self.entries);
        let n = entries.len();
        let mut i: usize = 0;
        while i < n
            invariant
                n == entries@.len(),
                i <= n,
                entries@ == orig,
                unique_addrs(orig),
                old(self)@ == entries_map(orig),
                forall|j: int| 0 <= j < i ==> #[trigger] entries@[j].addr@ != addr@,
            decreases n - i,
        {
            if entries[i].addr == *addr {
                let e = LedgerEntry { addr: addr.clone(), dep };
                proof {
                    lemma_entries_map_update(orig, i as int, e);
                }
                entries[i] = e;
                self.entries = entries;
                return;
            }
            i += 1;
        }
        let e = LedgerEntry { addr: addr.clone(), dep };
        proof {
            lemma_entries_map_push(orig, e);
            lemma_entries_map_domain(orig, addr@);
            assert forall|a: int, b: int|
                0 <= a < b < orig.push(e).len() implies orig.push(e)[a].addr@
                != orig.push(e)[b].addr@ by {
                if b < orig.len() {
                    assert(orig[a].addr@ != orig[b].addr@);
                } else {
                    assert(orig.push(e)[a] == orig[a]);
                }
            }
        }
        entries.push(e);
        self.entries = entries;
    }
}

/// The whole persistent state of one contract instance.
pub struct ContractState {
    pub config: Config,
    pub deposits: DepositLedger,
}

} // verus!
