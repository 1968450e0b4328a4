use vstd::prelude::*;

verus! {

/// The names in order, separated by a comma and a space.
pub open spec fn join_names(names: Seq<String>) -> Seq<char>
    decreases names.len(),
{
    if names.len() == 0 {
        Seq::empty()
    } else if names.len() == 1 {
        names[0]@
    } else {
        join_names(names.drop_last()) + seq![',', ' '] + names.last()@
    }
}

/// Joins `names` for a composite listener's log line.
pub fn join(names: &Vec<String>) -> (r: String)
    ensures
        r@ == join_names(names@),
{
    let mut s = String::from_str("");
    proof {
        reveal_strlit("");
        reveal_strlit(", ");
        assert(names@.subrange(0, 0) =~= Seq::<String>::empty());
    }
    let mut i: usize = 0;
    while i < names.len()
        invariant
            i <= names@.len(),
            s@ == join_names(names@.subrange(0, i as int)),
        decreases names.len() - i,
    {
        let ghost before = names@.subrange(0, i as int);
        let ghost after = names@.subrange(0, i + 1);
        proof {
            assert(after.drop_last() =~= before);
            assert(after.last() == names@[i as int]);
        }
        if i > 0 {
            proof {
                reveal_strlit(", ");
                assert(", "@ =~= seq![',', ' ']);
            }
            s = s.concat(", ");
        }
        s = s.concat(names[i].as_str());
        proof {
            if i == 0 {
                assert(before.len() == 0);
                assert(s@ =~= after[0]@);
            } else {
                assert(s@ =~= join_names(before) + seq![',', ' '] + after.last()@);
            }
        }
        i = i + 1;
    }
    proof {
        assert(names@.subrange(0, names@.len() as int) =~= names@);
    }
    s
}

} // verus!
