use vstd::prelude::*;

verus! {

/// The words joined by single spaces, in the order given.
pub open spec fn joined(words: Seq<Seq<char>>) -> Seq<char>
    decreases words.len(),
{
    if words.len() == 0 {
        Seq::empty()
    } else if words.len() == 1 {
        words[0]
    } else {
        joined(words.drop_last()) + seq![' '] + words.last()
    }
}

/// The search phrase: the arguments joined by single spaces.
pub fn join_args(args: &Vec<String>) -> (r: String)
    requires
        args.len() > 0,
    ensures
        r@ == joined(args@.map_values(|a: String| a@)),
{
    let ghost words = args@.map_values(|a: String| a@);
    let mut r = args[0].clone();
    let mut i: usize = 1;
    assert(words.take(1) =~= seq![words[0]]);
    while i < args.len()
        invariant
            1 <= i <= args.len(),
            words == args@.map_values(|a: String| a@),
            r@ == joined(words.take(i as int)),
        decreases args.len() - i,
    {
        proof {
            reveal_strlit(" ");
        }
        r.append(" ");
        r.append(args[i].as_str());
        assert(words.take(i + 1).drop_last() =~= words.take(i as int));
        assert(words.take(i + 1).last() == args[i as int]@);
        i = i + 1;
    }
    assert(words.take(args.len() as int) =~= words);
    r
}

/// The search phrase, or `None` where there is no argument to search for.
pub fn build_query(args: &Vec<String>) -> (r: Option<String>)
    ensures
        args.len() == 0 <==> r is None,
        r matches Some(q) ==> q@ == joined(args@.map_values(|a: String| a@)),
{
    if args.len() == 0 {
        None
    } else {
        Some(join_args(args))
    }
}

/// The usage line, printed when no argument is given.
pub fn usage() -> (r: &'static str)
    ensures
        r@ == "Usage: wiki <args>"@,
{
    "Usage: wiki <args>"
}

} // verus!
