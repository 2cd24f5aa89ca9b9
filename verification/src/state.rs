use vstd::prelude::*;
use vstd::pervasive::VecAdditionalExecFns;

verus! {

/// One display attribute of a token's metadata. The sale logic never reads
/// these; they are carried from the configuration into each mint instruction.
#[derive(Debug, PartialEq, Eq)]
pub struct Trait {
    pub display_type: Option<String>,
    pub trait_type: String,
    pub value: String,
}

/// Display metadata handed to the token contract with every mint.
#[derive(Debug, PartialEq, Eq)]
pub struct Metadata {
    pub image: Option<String>,
    pub image_data: Option<String>,
    pub external_url: Option<String>,
    pub description: Option<String>,
    pub name: Option<String>,
    pub attributes: Option<Vec<Trait>>,
    pub background_color: Option<String>,
    pub animation_url: Option<String>,
    pub youtube_url: Option<String>,
}

/// Equality of optional attribute lists, element by element.
pub open spec fn attrs_eq(a: Option<Vec<Trait>>, b: Option<Vec<Trait>>) -> bool {
    match (a, b) {
        (Option::None, Option::None) => true,
        (Option::Some(x), Option::Some(y)) => x@ == y@,
        _ => false,
    }
}

/// Equality of metadata, field by field.
pub open spec fn metadata_eq(a: Metadata, b: Metadata) -> bool {
    &&& a.image == b.image
    &&& a.image_data == b.image_data
    &&& a.external_url == b.external_url
    &&& a.description == b.description
    &&& a.name == b.name
    &&& attrs_eq(a.attributes, b.attributes)
    &&& a.background_color == b.background_color
    &&& a.animation_url == b.animation_url
    &&& a.youtube_url == b.youtube_url
}

/// Equality of optional metadata, field by field.
pub open spec fn ext_eq(a: Option<Metadata>, b: Option<Metadata>) -> bool {
    match (a, b) {
        (Option::None, Option::None) => true,
        (Option::Some(x), Option::Some(y)) => metadata_eq(x, y),
        _ => false,
    }
}

impl Clone for Trait {
    fn clone(&self) -> (res: Self)
        ensures
            res == *self,
    {
        Trait {
            display_type: self.display_type.clone(),
            trait_type: self.trait_type.clone(),
            value: self.value.clone(),
        }
    }
}

fn clone_traits(v: &Vec<Trait>) -> (res: Vec<Trait>)
    ensures
        res@ == v@,
{
    let mut out: Vec<Trait> = Vec::new();
    let mut i: usize = 0;
    while i < v.len()
        invariant
            i <= v.len(),
            out@ =~= v@.take(i as int),
        decreases v.len() - i,
    {
        out.push(v[i].clone());
        proof {
            assert(v@.take(i as int + 1) =~= v@.take(i as int).push(v@[i as int]));
        }
        i = i + 1;
    }
    proof {
        assert(v@.take(v@.len() as int) =~= v@);
    }
    out
}

impl Clone for Metadata {
    fn clone(&self) -> (res: Self)
        ensures
            metadata_eq(res, *self),
    {
        let attributes: Option<Vec<Trait>> = match &self.attributes {
            Option::Some(v) => Option::Some(clone_traits(v)),
            Option::None => Option::None,
        };
        Metadata {
            image: self.image.clone(),
            image_data: self.image_data.clone(),
            external_url: self.external_url.clone(),
            description: self.description.clone(),
            name: self.name.clone(),
            attributes,
            background_color: self.background_color.clone(),
            animation_url: self.animation_url.clone(),
            youtube_url: self.youtube_url.clone(),
        }
    }
}

/// Clones an optional metadata value, preserving it field by field.
pub fn clone_extension(e: &Option<Metadata>) -> (res: Option<Metadata>)
    ensures
        ext_eq(res, *e),
{
    match e {
        Option::Some(m) => Option::Some(m.clone()),
        Option::None => Option::None,
    }
}

/// The sale configuration: a durable singleton created at instantiation and
/// mutated only by linkage completion, price changes, and the token counter
/// advancing on each mint.
#[derive(Debug, PartialEq, Eq)]
pub struct Config {
    pub owner: String,
    pub denom1: String,
    pub denom2: String,
    pub cw721_address: Option<String>,
    pub unit_price1: u128,
    pub unit_price2: u128,
    pub name: String,
    pub symbol: String,
    pub token_uri: String,
    pub extension: Option<Metadata>,
    pub unused_token_id: u32,
}

/// One buyer's mint count. Entries are created on a buyer's first mint and
/// only ever incremented.
#[derive(Debug, PartialEq, Eq)]
pub struct BalanceEntry {
    pub user: String,
    pub balance: u128,
}

/// The whole durable state of one contract instance.
#[derive(Debug, PartialEq, Eq)]
pub struct ContractState {
    pub config: Config,
    /// True while sales are paused. Unset (false, "active") by default.
    pub mint_pause: bool,
    pub balances: Vec<BalanceEntry>,
    pub total_mint: u128,
}

/// The balance table as a sequence of (buyer, count) pairs, the mathematical
/// model the contracts below speak of.
pub open spec fn bal_view(bs: Seq<BalanceEntry>) -> Seq<(Seq<char>, u128)> {
    bs.map_values(|e: BalanceEntry| (e.user@, e.balance))
}

/// Whether `user` has an entry.
pub open spec fn bal_has(m: Seq<(Seq<char>, u128)>, user: Seq<char>) -> bool
    decreases m.len(),
{
    if m.len() == 0 {
        false
    } else if m[0].0 == user {
        true
    } else {
        bal_has(m.drop_first(), user)
    }
}

/// The count recorded for `user`, zero if absent.
pub open spec fn bal_lookup(m: Seq<(Seq<char>, u128)>, user: Seq<char>) -> u128
    decreases m.len(),
{
    if m.len() == 0 {
        0u128
    } else if m[0].0 == user {
        m[0].1
    } else {
        bal_lookup(m.drop_first(), user)
    }
}

/// The sum of all recorded counts.
pub open spec fn bal_sum(m: Seq<(Seq<char>, u128)>) -> int
    decreases m.len(),
{
    if m.len() == 0 {
        0int
    } else {
        m[0].1 + bal_sum(m.drop_first())
    }
}

/// The table after one mint by `user`: the first entry for `user` counts one
/// more, or a fresh entry with count one is appended.
pub open spec fn bal_bump(m: Seq<(Seq<char>, u128)>, user: Seq<char>) -> Seq<(Seq<char>, u128)>
    decreases m.len(),
{
    if m.len() == 0 {
        seq![(user, 1u128)]
    } else if m[0].0 == user {
        seq![(m[0].0, (m[0].1 + 1) as u128)].add(m.drop_first())
    } else {
        seq![m[0]].add(bal_bump(m.drop_first(), user))
    }
}

/// No buyer has two entries.
pub open spec fn bal_unique(m: Seq<(Seq<char>, u128)>) -> bool {
    forall|i: int, j: int| 0 <= i < j < m.len() ==> m[i].0 != m[j].0
}

/// Every entry counts at least one mint.
pub open spec fn bal_positive(m: Seq<(Seq<char>, u128)>) -> bool {
    forall|i: int| 0 <= i < m.len() ==> #[trigger] m[i].1 >= 1
}

impl ContractState {
    /// The accounting invariant: balance entries are per-buyer and positive,
    /// their sum is the total mint count, and the total equals the next-token
    /// counter (both start at zero and advance together, one per mint).
    pub open spec fn wf(&self) -> bool {
        &&& bal_unique(bal_view(self.balances@))
        &&& bal_positive(bal_view(self.balances@))
        &&& bal_sum(bal_view(self.balances@)) == self.total_mint as int
        &&& self.total_mint == self.config.unused_token_id as u128
    }
}

/// The sum of a table splits at any index.
pub proof fn lemma_bal_sum_split(m: Seq<(Seq<char>, u128)>, i: int)
    requires
        0 <= i <= m.len(),
    ensures
        bal_sum(m) == bal_sum(m.take(i)) + bal_sum(m.skip(i)),
    decreases i,
{
    if i == 0 {
        assert(m.take(0) =~= Seq::<(Seq<char>, u128)>::empty());
        assert(m.skip(0) =~= m);
    } else {
        lemma_bal_sum_split(m.drop_first(), i - 1);
        assert(m.take(i).drop_first() =~= m.drop_first().take(i - 1));
        assert(m.skip(i) =~= m.drop_first().skip(i - 1));
        assert(bal_sum(m.take(i)) == m[0].1 + bal_sum(m.take(i).drop_first()));
        assert(bal_sum(m) == m[0].1 + bal_sum(m.drop_first()));
    }
}

/// Appending one entry adds its count to the sum.
pub proof fn lemma_bal_sum_push(m: Seq<(Seq<char>, u128)>, x: (Seq<char>, u128))
    ensures
        bal_sum(m.push(x)) == bal_sum(m) + x.1,
    decreases m.len(),
{
    if m.len() == 0 {
        assert(m.push(x)[0] == x);
        assert(m.push(x).drop_first() =~= Seq::<(Seq<char>, u128)>::empty());
        assert(bal_sum(m.push(x)) == x.1 + bal_sum(m.push(x).drop_first()));
    } else {
        lemma_bal_sum_push(m.drop_first(), x);
        assert(m.push(x)[0] == m[0]);
        assert(m.push(x).drop_first() =~= m.drop_first().push(x));
        assert(bal_sum(m.push(x)) == m[0].1 + bal_sum(m.push(x).drop_first()));
    }
}

/// A recorded count never exceeds the sum of all counts.
pub proof fn lemma_bal_lookup_le_sum(m: Seq<(Seq<char>, u128)>, user: Seq<char>)
    ensures
        bal_sum(m) >= 0,
        bal_lookup(m, user) <= bal_sum(m),
    decreases m.len(),
{
    if m.len() > 0 {
        lemma_bal_lookup_le_sum(m.drop_first(), user);
    }
}

/// Law behind the accounting invariant: one mint adds exactly one to the sum
/// of all balances, so the sum tracks the total mint count.
pub proof fn lemma_bal_bump_sum(m: Seq<(Seq<char>, u128)>, user: Seq<char>)
    requires
        bal_lookup(m, user) < u128::MAX,
    ensures
        bal_sum(bal_bump(m, user)) == bal_sum(m) + 1,
    decreases m.len(),
{
    if m.len() == 0 {
        let b = bal_bump(m, user);
        assert(b[0] == (user, 1u128));
        assert(b.drop_first() =~= Seq::<(Seq<char>, u128)>::empty());
        assert(bal_sum(b) == b[0].1 + bal_sum(b.drop_first()));
    } else if m[0].0 == user {
        let b = bal_bump(m, user);
        assert(b[0] == (m[0].0, (m[0].1 + 1) as u128));
        assert(b.drop_first() =~= m.drop_first());
        assert(bal_sum(b) == b[0].1 + bal_sum(b.drop_first()));
    } else {
        lemma_bal_bump_sum(m.drop_first(), user);
        let b = bal_bump(m, user);
        assert(b[0] == m[0]);
        assert(b.drop_first() =~= bal_bump(m.drop_first(), user));
        assert(bal_sum(b) == b[0].1 + bal_sum(b.drop_first()));
    }
}

/// Law behind per-buyer accounting: one mint by `user` raises that buyer's
/// count by one and no other buyer's count.
pub proof fn lemma_bal_bump_lookup(m: Seq<(Seq<char>, u128)>, user: Seq<char>)
    requires
        bal_lookup(m, user) < u128::MAX,
    ensures
        bal_lookup(bal_bump(m, user), user) == bal_lookup(m, user) + 1,
        forall|v: Seq<char>| v != user ==> bal_lookup(bal_bump(m, user), v) == bal_lookup(m, v),
        forall|v: Seq<char>| #[trigger] bal_has(bal_bump(m, user), v) <==> (bal_has(m, v) || v
            == user),
    decreases m.len(),
{
    let b = bal_bump(m, user);
    if m.len() == 0 {
        assert(b.drop_first() =~= Seq::<(Seq<char>, u128)>::empty());
        assert forall|v: Seq<char>| v != user implies bal_lookup(b, v) == bal_lookup(m, v) by {
            assert(bal_lookup(b.drop_first(), v) == 0);
        }
        assert forall|v: Seq<char>| #[trigger] bal_has(b, v) <==> (bal_has(m, v) || v == user) by {
            assert(!bal_has(b.drop_first(), v));
        }
    } else if m[0].0 == user {
        assert(b.drop_first() =~= m.drop_first());
        assert forall|v: Seq<char>| v != user implies bal_lookup(b, v) == bal_lookup(m, v) by {
            assert(bal_lookup(b, v) == bal_lookup(b.drop_first(), v));
        }
        assert forall|v: Seq<char>| #[trigger] bal_has(b, v) <==> (bal_has(m, v) || v == user) by {
            assert(bal_has(b, v) == (b[0].0 == v || bal_has(b.drop_first(), v)));
        }
    } else {
        lemma_bal_bump_lookup(m.drop_first(), user);
        assert(b.drop_first() =~= bal_bump(m.drop_first(), user));
        assert(b[0] == m[0]);
        assert forall|v: Seq<char>| v != user implies bal_lookup(b, v) == bal_lookup(m, v) by {
            if m[0].0 != v {
                assert(bal_lookup(b, v) == bal_lookup(b.drop_first(), v));
                assert(bal_lookup(m, v) == bal_lookup(m.drop_first(), v));
            }
        }
        assert forall|v: Seq<char>| #[trigger] bal_has(b, v) <==> (bal_has(m, v) || v == user) by {
            assert(bal_has(b, v) == (b[0].0 == v || bal_has(b.drop_first(), v)));
            assert(bal_has(m, v) == (m[0].0 == v || bal_has(m.drop_first(), v)));
        }
    }
}

/// One mint keeps the table well formed: entries stay per-buyer and positive.
pub proof fn lemma_bal_bump_wf(m: Seq<(Seq<char>, u128)>, user: Seq<char>)
    requires
        bal_unique(m),
        bal_positive(m),
        bal_lookup(m, user) < u128::MAX,
    ensures
        bal_unique(bal_bump(m, user)),
        bal_positive(bal_bump(m, user)),
    decreases m.len(),
{
    let b = bal_bump(m, user);
    if m.len() == 0 {
    } else if m[0].0 == user {
        assert(b.drop_first() =~= m.drop_first());
        assert(forall|i: int| 0 <= i < b.len() ==> #[trigger] b[i].1 >= 1);
    } else {
        assert(bal_unique(m.drop_first()));
        assert(bal_positive(m.drop_first()));
        lemma_bal_bump_lookup(m.drop_first(), user);
        lemma_bal_bump_wf(m.drop_first(), user);
        assert(b.drop_first() =~= bal_bump(m.drop_first(), user));
        lemma_bal_has_index(bal_bump(m.drop_first(), user), m[0].0);
        assert(!bal_has(m.drop_first(), m[0].0)) by {
            lemma_bal_has_index(m.drop_first(), m[0].0);
        }
        assert(forall|i: int| 0 <= i < b.len() ==> #[trigger] b[i].1 >= 1);
        assert forall|i: int, j: int| 0 <= i < j < b.len() implies b[i].0 != b[j].0 by {
            if i > 0 {
                assert(b[i] == b.drop_first()[i - 1]);
                assert(b[j] == b.drop_first()[j - 1]);
            } else {
                assert(b[j] == b.drop_first()[j - 1]);
                assert(bal_has(bal_bump(m.drop_first(), user), b[j].0)) by {
                    lemma_bal_has_index(bal_bump(m.drop_first(), user), b[j].0);
                }
            }
        }
    }
}

/// An entry for `user` exists exactly when some index holds one.
pub proof fn lemma_bal_has_index(m: Seq<(Seq<char>, u128)>, user: Seq<char>)
    ensures
        bal_has(m, user) <==> exists|i: int| 0 <= i < m.len() && m[i].0 == user,
    decreases m.len(),
{
    if m.len() > 0 {
        lemma_bal_has_index(m.drop_first(), user);
        if bal_has(m.drop_first(), user) {
            let i = choose|i: int| 0 <= i < m.drop_first().len() && m.drop_first()[i].0 == user;
            assert(m[i + 1].0 == user);
        }
        if exists|i: int| 0 <= i < m.len() && m[i].0 == user {
            let i = choose|i: int| 0 <= i < m.len() && m[i].0 == user;
            if i > 0 {
                assert(m.drop_first()[i - 1].0 == user);
            }
        }
    }
}

/// Skipping entries that are not the buyer's leaves lookup and membership
/// unchanged.
pub proof fn lemma_bal_skip(m: Seq<(Seq<char>, u128)>, user: Seq<char>, i: int)
    requires
        0 <= i <= m.len(),
        forall|j: int| 0 <= j < i ==> m[j].0 != user,
    ensures
        bal_lookup(m, user) == bal_lookup(m.skip(i), user),
        bal_has(m, user) <==> bal_has(m.skip(i), user),
    decreases i,
{
    if i > 0 {
        assert(m.skip(i) =~= m.drop_first().skip(i - 1));
        lemma_bal_skip(m.drop_first(), user, i - 1);
    } else {
        assert(m.skip(0) =~= m);
    }
}

/// When the first entry for the buyer stands at index `i`, a mint is exactly
/// an update of that entry.
pub proof fn lemma_bal_bump_is_update(m: Seq<(Seq<char>, u128)>, user: Seq<char>, i: int)
    requires
        0 <= i < m.len(),
        m[i].0 == user,
        forall|j: int| 0 <= j < i ==> m[j].0 != user,
    ensures
        bal_bump(m, user) =~= m.update(i, (m[i].0, (m[i].1 + 1) as u128)),
    decreases i,
{
    if i == 0 {
        assert(bal_bump(m, user) =~= m.update(0, (m[0].0, (m[0].1 + 1) as u128)));
    } else {
        lemma_bal_bump_is_update(m.drop_first(), user, i - 1);
        assert(bal_bump(m, user) =~= m.update(i, (m[i].0, (m[i].1 + 1) as u128)));
    }
}

/// When the buyer has no entry, a mint is exactly an appended fresh entry.
pub proof fn lemma_bal_bump_is_push(m: Seq<(Seq<char>, u128)>, user: Seq<char>)
    requires
        forall|j: int| 0 <= j < m.len() ==> m[j].0 != user,
    ensures
        bal_bump(m, user) =~= m.push((user, 1u128)),
    decreases m.len(),
{
    if m.len() > 0 {
        lemma_bal_bump_is_push(m.drop_first(), user);
        assert(bal_bump(m, user) =~= m.push((user, 1u128)));
    }
}

impl ContractState {
    /// Whether the accounting invariant holds, decided at run time; a host
    /// can check a state read back from its store before operating on it.
    pub fn is_well_formed(&self) -> (r: bool)
        ensures
            r == self.wf(),
    {
        let ghost m = bal_view(self.balances@);
        let n = self.balances.len();
        let mut i: usize = 0;
        while i < n
            invariant
                n == self.balances@.len(),
                m == bal_view(self.balances@),
                m.len() == n,
                i <= n,
                forall|a: int, b: int| 0 <= a < b < m.len() && a < i ==> m[a].0 != m[b].0,
                forall|a: int| 0 <= a < i ==> #[trigger] m[a].1 >= 1,
            decreases n - i,
        {
            if self.balances[i].balance == 0 {
                proof {
                    assert(m[i as int].1 == 0);
                    assert(!bal_positive(m));
                }
                return false;
            }
            let mut j: usize = i + 1;
            while j < n
                invariant
                    i < j,
                    j <= n,
                    i < n,
                    n == self.balances@.len(),
                    m == bal_view(self.balances@),
                    m.len() == n,
                    forall|b: int| i < b < j ==> m[i as int].0 != m[b].0,
                decreases n - j,
            {
                if self.balances[i].user == self.balances[j].user {
                    proof {
                        assert(m[i as int].0 == m[j as int].0);
                        assert(!bal_unique(m)) by {
                            assert(0 <= i < j < m.len() && m[i as int].0 == m[j as int].0);
                        }
                    }
                    return false;
                }
                j = j + 1;
            }
            i = i + 1;
        }
        let mut acc: u128 = 0;
        let mut k: usize = 0;
        while k < n
            invariant
                n == self.balances@.len(),
                m == bal_view(self.balances@),
                m.len() == n,
                k <= n,
                acc as int == bal_sum(m.take(k as int)),
            decreases n - k,
        {
            let b = self.balances[k].balance;
            proof {
                assert(m.take(k as int + 1) =~= m.take(k as int).push(m[k as int]));
                lemma_bal_sum_push(m.take(k as int), m[k as int]);
            }
            match acc.checked_add(b) {
                Option::Some(next) => {
                    acc = next;
                },
                Option::None => {
                    proof {
                        lemma_bal_sum_split(m, k as int + 1);
                        lemma_bal_lookup_le_sum(m.skip(k as int + 1), Seq::<char>::empty());
                    }
                    return false;
                },
            }
            k = k + 1;
        }
        proof {
            assert(m.take(n as int) =~= m);
        }
        acc == self.total_mint && self.total_mint == (self.config.unused_token_id as u128)
    }
}

/// The recorded count for `user`, zero if no entry exists.
pub fn lookup_balance(balances: &Vec<BalanceEntry>, user: &String) -> (r: u128)
    ensures
        r == bal_lookup(bal_view(balances@), user@),
{
    let ghost m = bal_view(balances@);
    let mut i: usize = 0;
    while i < balances.len()
        invariant
            i <= balances.len(),
            m == bal_view(balances@),
            m.len() == balances@.len(),
            forall|j: int| 0 <= j < i ==> m[j].0 != user@,
        decreases balances.len() - i,
    {
        if balances[i].user == *user {
            proof {
                lemma_bal_skip(m, user@, i as int);
                assert(m.skip(i as int)[0] == m[i as int]);
            }
            return balances[i].balance;
        }
        i = i + 1;
    }
    proof {
        lemma_bal_skip(m, user@, i as int);
        assert(m.skip(i as int) =~= Seq::<(Seq<char>, u128)>::empty());
    }
    0
}

/// Records one mint by `user`: the buyer's count rises by one, with an entry
/// created at one on the first mint.
pub fn bump_balance(balances: &mut Vec<BalanceEntry>, user: &String)
    requires
        bal_lookup(bal_view(old(balances)@), user@) < u128::MAX,
    ensures
        bal_view(final(balances)@) == bal_bump(bal_view(old(balances)@), user@),
{
    let ghost m = bal_view(balances@);
    let mut i: usize = 0;
    while i < balances.len()
        invariant
            i <= balances.len(),
            balances@ == old(balances)@,
            m == bal_view(balances@),
            m.len() == balances@.len(),
            forall|j: int| 0 <= j < i ==> m[j].0 != user@,
            bal_lookup(m, user@) < u128::MAX,
        decreases balances.len() - i,
    {
        if balances[i].user == *user {
            proof {
                assert(m[i as int].0 == user@);
                lemma_bal_skip(m, user@, i as int);
                assert(m.skip(i as int)[0] == m[i as int]);
                assert(bal_lookup(m, user@) == m[i as int].1);
                lemma_bal_bump_is_update(m, user@, i as int);
            }
            let user_again = balances[i].user.clone();
            let b = balances[i].balance;
            balances.set(i, BalanceEntry { user: user_again, balance: b + 1 });
            proof {
                assert(bal_view(balances@) =~= m.update(
                    i as int,
                    (m[i as int].0, (m[i as int].1 + 1) as u128),
                ));
            }
            return ;
        }
        i = i + 1;
    }
    proof {
        lemma_bal_bump_is_push(m, user@);
    }
    balances.push(BalanceEntry { user: user.clone(), balance: 1 });
    proof {
        assert(bal_view(balances@) =~= m.push((user@, 1u128)));
    }
}

} // verus!
