use vstd::prelude::*;

verus! {

/// The command-line flag that names a movie to replay.
pub open spec fn movie_flag() -> Seq<char> {
    "--movie"@
}

/// No argument before position `n` is the movie flag.
pub open spec fn flag_free(args: Seq<String>, n: int) -> bool {
    forall|j: int| 0 <= j < n ==> #[trigger] args[j]@ != movie_flag()
}

/// The argument that follows the first `--movie` flag, if the flag occurs
/// and is not the last argument.
pub fn get_movie_file(args: &Vec<String>) -> (r: Option<String>)
    ensures
        r matches Some(f) ==> exists|i: int|
            0 <= i && i + 1 < args@.len() && #[trigger] args@[i]@ == movie_flag() && flag_free(
                args@,
                i,
            ) && f@ == args@[i + 1]@,
        r is None ==> forall|i: int|
            0 <= i && i + 1 < args@.len() && #[trigger] args@[i]@ == movie_flag() ==> !flag_free(
                args@,
                i,
            ),
{
    let flag = "--movie".to_owned();
    let mut i: usize = 0;
    while i < args.len()
        invariant
            i <= args@.len(),
            flag@ == movie_flag(),
            flag_free(args@, i as int),
        decreases args@.len() - i,
    {
        if args[i] == flag {
            if i + 1 < args.len() {
                return Some(args[i + 1].clone());
            }
            return None;
        }
        i = i + 1;
    }
    None
}

} // verus!
