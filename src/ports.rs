use vstd::prelude::*;

verus! {

/// The names of a list of ports.
pub open spec fn names(v: Seq<String>) -> Seq<Seq<char>> {
    v.map_values(|s: String| s@)
}

/// The first name of `now`, in its order, that `before` does not hold.
pub open spec fn new_port(before: Seq<Seq<char>>, now: Seq<Seq<char>>) -> Option<Seq<char>>
    decreases now.len(),
{
    if now.len() == 0 {
        None
    } else if !before.contains(now[0]) {
        Some(now[0])
    } else {
        new_port(before, now.drop_first())
    }
}

proof fn lemma_new_port_skip(before: Seq<Seq<char>>, now: Seq<Seq<char>>, j: int)
    requires
        0 <= j <= now.len(),
        forall|k: int| 0 <= k < j ==> before.contains(#[trigger] now[k]),
    ensures
        new_port(before, now) == new_port(before, now.subrange(j, now.len() as int)),
    decreases j,
{
    if j > 0 {
        assert(before.contains(now[0]));
        let t = now.drop_first();
        assert forall|k: int| 0 <= k < j - 1 implies before.contains(#[trigger] t[k]) by {
            assert(t[k] == now[k + 1]);
        }
        lemma_new_port_skip(before, t, j - 1);
        assert(t.subrange(j - 1, t.len() as int) =~= now.subrange(j, now.len() as int));
    } else {
        assert(now.subrange(0, now.len() as int) =~= now);
    }
}

fn is_listed(ports: &Vec<String>, name: &String) -> (r: bool)
    ensures
        r == names(ports@).contains(name@),
{
    let mut i: usize = 0;
    while i < ports.len()
        invariant
            i <= ports@.len(),
            forall|k: int| 0 <= k < i ==> ports@[k]@ != name@,
        decreases ports@.len() - i,
    {
        if ports[i] == *name {
            assert(names(ports@)[i as int] == name@);
            return true;
        }
        i = i + 1;
    }
    proof {
        if names(ports@).contains(name@) {
            let k = choose|k: int| 0 <= k < names(ports@).len() && names(ports@)[k] == name@;
            assert(ports@[k]@ == name@);
        }
    }
    false
}

/// Compares the current port list with the snapshot, replaces the snapshot
/// by it, and names the first current port that the snapshot lacked.
pub fn lookup_new_device(ports: &mut Vec<String>, ports_now: Vec<String>) -> (r: Option<String>)
    ensures
        final(ports)@ == ports_now@,
        match new_port(names(old(ports)@), names(ports_now@)) {
            Some(n) => r is Some && r->0@ == n,
            None => r is None,
        },
{
    let ghost before = names(ports@);
    let mut j: usize = 0;
    while j < ports_now.len()
        invariant
            ports@ == old(ports)@,
            before == names(ports@),
            j <= ports_now@.len(),
            forall|k: int| 0 <= k < j ==> before.contains(#[trigger] names(ports_now@)[k]),
        decreases ports_now@.len() - j,
    {
        let listed = is_listed(ports, &ports_now[j]);
        assert(names(ports_now@)[j as int] == ports_now@[j as int]@);
        if !listed {
            let name = ports_now[j].clone();
            proof {
                lemma_new_port_skip(before, names(ports_now@), j as int);
                let rest = names(ports_now@).subrange(j as int, ports_now@.len() as int);
                assert(rest[0] == names(ports_now@)[j as int]);
            }
            *ports = ports_now;
            return Some(name);
        }
        j = j + 1;
    }
    proof {
        lemma_new_port_skip(before, names(ports_now@), j as int);
        assert(names(ports_now@).subrange(j as int, ports_now@.len() as int) =~= Seq::<Seq<char>>::empty());
    }
    *ports = ports_now;
    None
}

/// A port that the watcher names is a current port that the snapshot
/// lacked; as the snapshot then becomes the current list, a port is named
/// at most once for each time that it appears.
pub proof fn lemma_new_port_is_new(before: Seq<Seq<char>>, now: Seq<Seq<char>>)
    ensures
        new_port(before, now) matches Some(n) ==> now.contains(n) && !before.contains(n),
        new_port(now, now) is None,
    decreases now.len(),
{
    if now.len() > 0 {
        lemma_new_port_is_new(before, now.drop_first());
        if before.contains(now[0]) {
            if let Some(n) = new_port(before, now.drop_first()) {
                let k = choose|k: int| 0 <= k < now.drop_first().len() && now.drop_first()[k] == n;
                assert(now[k + 1] == n);
            }
        } else {
            assert(now[0] == now[0]);
        }
        lemma_new_port_in(now, now, 0);
    }
}

proof fn lemma_new_port_in(before: Seq<Seq<char>>, now: Seq<Seq<char>>, j: int)
    requires
        0 <= j <= now.len(),
        forall|k: int| 0 <= k < now.len() ==> before.contains(#[trigger] now[k]),
    ensures
        new_port(before, now) is None,
{
    lemma_new_port_skip(before, now, now.len() as int);
    assert(now.subrange(now.len() as int, now.len() as int).len() == 0);
}

} // verus!
