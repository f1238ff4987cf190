use vstd::prelude::*;

verus! {

/// A filesystem the node can put on a volume, with the options always used with it.
pub struct Fs {
    pub name: String,
    pub defaults: Vec<String>,
}

/// One entry of the mount table as seen by the node.
pub struct MountRecord {
    pub source: String,
    pub dest: String,
    pub opts: Vec<String>,
}

/// The text of each option of a list.
pub open spec fn views(s: Seq<String>) -> Seq<Seq<char>> {
    s.map_values(|o: String| o@)
}

/// The option that selects a read-only mount.
pub open spec fn ro_word() -> Seq<char> {
    seq!['r', 'o']
}

/// The option that selects a read-write mount.
pub open spec fn rw_word() -> Seq<char> {
    seq!['r', 'w']
}

/// The word that a mount's read-only flag adds to its options.
pub open spec fn mode_word(readonly: bool) -> Seq<char> {
    if readonly {
        ro_word()
    } else {
        rw_word()
    }
}

pub open spec fn is_mode_word(o: Seq<char>) -> bool {
    o == ro_word() || o == rw_word()
}

/// The options of a list apart from the read-only / read-write word, as a set.
pub open spec fn option_set(s: Seq<Seq<char>>) -> Set<Seq<char>> {
    Set::new(|o: Seq<char>| s.contains(o) && !is_mode_word(o))
}

/// Requested options `req` (for a mount whose read-only flag is `readonly`) are
/// met by the options `act` of an existing mount: the same options in any order,
/// and the existing mount is read-only exactly when the request is.
pub open spec fn opts_equivalent(req: Seq<Seq<char>>, act: Seq<Seq<char>>, readonly: bool) -> bool {
    option_set(req) == option_set(act) && act.contains(ro_word()) == readonly
}

fn word(readonly: bool) -> (r: String)
    ensures
        r@ == mode_word(readonly),
{
    proof {
        reveal_strlit("ro");
        reveal_strlit("rw");
    }
    if readonly {
        String::from_str("ro")
    } else {
        String::from_str("rw")
    }
}

fn contains_opt(v: &Vec<String>, o: &String) -> (r: bool)
    ensures
        r == views(v@).contains(o@),
{
    let mut i: usize = 0;
    while i < v.len()
        invariant
            i <= v@.len(),
            forall|j: int| 0 <= j < i ==> v@[j]@ != o@,
        decreases v@.len() - i,
    {
        if v[i] == *o {
            assert(views(v@)[i as int] == o@);
            return true;
        }
        i = i + 1;
    }
    proof {
        if views(v@).contains(o@) {
            let k = choose|k: int| 0 <= k < views(v@).len() && views(v@)[k] == o@;
            assert(v@[k]@ == o@);
        }
    }
    false
}

/// Whether every option of `a`, apart from the mode word, is also in `b`.
fn options_within(a: &Vec<String>, b: &Vec<String>) -> (r: bool)
    ensures
        r == option_set(views(a@)).subset_of(option_set(views(b@))),
{
    let ro = word(true);
    let rw = word(false);
    let mut i: usize = 0;
    while i < a.len()
        invariant
            i <= a@.len(),
            ro@ == ro_word(),
            rw@ == rw_word(),
            forall|j: int|
                0 <= j < i && !is_mode_word(#[trigger] a@[j]@) ==> views(b@).contains(a@[j]@),
        decreases a@.len() - i,
    {
        let skip = a[i] == ro || a[i] == rw;
        if !skip && !contains_opt(b, &a[i]) {
            proof {
                let o = a@[i as int]@;
                assert(views(a@)[i as int] == o);
                assert(option_set(views(a@)).contains(o));
            }
            return false;
        }
        i = i + 1;
    }
    proof {
        assert forall|o: Seq<char>| option_set(views(a@)).contains(o) implies option_set(
            views(b@),
        ).contains(o) by {
            let k = choose|k: int| 0 <= k < views(a@).len() && views(a@)[k] == o;
            assert(a@[k]@ == o);
        }
    }
    true
}

/// Decide whether an existing mount with options `second` satisfies a request
/// for options `first` with the given read-only flag. Order does not matter.
pub fn mount_opts_compare(first: &Vec<String>, second: &Vec<String>, readonly: bool) -> (r: bool)
    ensures
        r == opts_equivalent(views(first@), views(second@), readonly),
{
    let ro = word(true);
    let is_ro = contains_opt(second, &ro);
    if is_ro != readonly {
        return false;
    }
    let there = options_within(first, second);
    let back = options_within(second, first);
    proof {
        let x = option_set(views(first@));
        let y = option_set(views(second@));
        if there && back {
            assert(x =~= y);
        }
        if x == y {
            assert(x.subset_of(y));
        }
    }
    there && back
}

/// A copy of a list of options.
pub fn copy_opts(v: &Vec<String>) -> (r: Vec<String>)
    ensures
        r@ == v@,
{
    let mut r: Vec<String> = Vec::new();
    let mut i: usize = 0;
    while i < v.len()
        invariant
            i <= v@.len(),
            r@ == v@.take(i as int),
        decreases v@.len() - i,
    {
        r.push(v[i].clone());
        assert(v@.take(i as int).push(v@[i as int]) =~= v@.take(i as int + 1));
        i = i + 1;
    }
    assert(v@.take(v@.len() as int) =~= v@);
    r
}

/// The options of a mount: the requested ones, then the word for the read-only
/// flag, then the filesystem's defaults.
pub fn effective_flags(mount_flags: &Vec<String>, readonly: bool, defaults: &Vec<String>) -> (r: Vec<
    String,
>)
    ensures
        views(r@) == views(mount_flags@).push(mode_word(readonly)) + views(defaults@),
{
    let mut r = copy_opts(mount_flags);
    let w = word(readonly);
    r.push(w);
    let mut i: usize = 0;
    let ghost start = r@;
    while i < defaults.len()
        invariant
            i <= defaults@.len(),
            r@ == start + defaults@.take(i as int),
        decreases defaults@.len() - i,
    {
        r.push(defaults[i].clone());
        assert(defaults@.take(i as int).push(defaults@[i as int]) =~= defaults@.take(i as int + 1));
        i = i + 1;
    }
    assert(defaults@.take(defaults@.len() as int) =~= defaults@);
    assert(views(r@) =~= views(mount_flags@).push(mode_word(readonly)) + views(defaults@));
    r
}

/// The same option list, whatever its order, satisfies itself when its
/// read-only word agrees with the flag.
pub proof fn lemma_compare_reflexive(opts: Seq<Seq<char>>, readonly: bool)
    requires
        opts.contains(ro_word()) == readonly,
    ensures
        opts_equivalent(opts, opts, readonly),
{
}

/// Comparing option lists does not depend on the order of either list.
pub proof fn lemma_compare_order_independent(
    a: Seq<Seq<char>>,
    a2: Seq<Seq<char>>,
    b: Seq<Seq<char>>,
    b2: Seq<Seq<char>>,
    readonly: bool,
)
    requires
        a.to_multiset() == a2.to_multiset(),
        b.to_multiset() == b2.to_multiset(),
    ensures
        opts_equivalent(a, b, readonly) == opts_equivalent(a2, b2, readonly),
{
    assert forall|o: Seq<char>| a.contains(o) == a2.contains(o) by {
        a.to_multiset_ensures();
        a2.to_multiset_ensures();
        assert(a.contains(o) <==> a.to_multiset().count(o) > 0);
        assert(a2.contains(o) <==> a2.to_multiset().count(o) > 0);
    }
    assert forall|o: Seq<char>| b.contains(o) == b2.contains(o) by {
        b.to_multiset_ensures();
        b2.to_multiset_ensures();
        assert(b.contains(o) <==> b.to_multiset().count(o) > 0);
        assert(b2.contains(o) <==> b2.to_multiset().count(o) > 0);
    }
    assert(option_set(a) =~= option_set(a2));
    assert(option_set(b) =~= option_set(b2));
}

} // verus!
