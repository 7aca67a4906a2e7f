use vstd::prelude::*;

use crate::weighted_key::Key;
use crate::weighted_lesson::{keys_of, Lesson};

verus! {

/// The keys that the home-row lessons add one by one after the first four.
pub open spec fn home_row_additions() -> Seq<char> {
    seq!['t', 's', 't', 's', 'c', 'g', 'o', 'b', 'q']
}

/// Ten lessons over the home row: the first on `i e n r`, each next one with
/// one more key, all of weight 1.
pub fn create_home_row_lessons(lesson_length: u32, word_length: u8) -> (r: Vec<Lesson>)
    ensures
        r@.len() == 10,
        forall|n: int|
            0 <= n < 10 ==> {
                &&& (#[trigger] r@[n]).keys@ == keys_of(
                    seq!['i', 'e', 'n', 'r'] + home_row_additions().take(n),
                )
                &&& r@[n].lesson_length == lesson_length
                &&& r@[n].word_length == word_length
            },
{
    let mut lessons: Vec<Lesson> = Vec::new();
    // home row "ctie ob nrsg q"
    lessons.push(Lesson::from_chars(&['i', 'e', 'n', 'r'], lesson_length, word_length));
    let additions = ['t', 's', 't', 's', 'c', 'g', 'o', 'b', 'q'];
    let mut i: usize = 0;
    while i < 9
        invariant
            0 <= i <= 9,
            additions@ == home_row_additions(),
            lessons@.len() == i + 1,
            forall|n: int|
                0 <= n <= i ==> {
                    &&& (#[trigger] lessons@[n]).keys@ == keys_of(
                        seq!['i', 'e', 'n', 'r'] + home_row_additions().take(n),
                    )
                    &&& lessons@[n].lesson_length == lesson_length
                    &&& lessons@[n].word_length == word_length
                },
        decreases 9 - i,
    {
        let next = lessons[i].add_key(Key::new(additions[i]));
        proof {
            let base = seq!['i', 'e', 'n', 'r'];
            let prefix = home_row_additions().take(i as int);
            assert(base + home_row_additions().take(i + 1) =~= (base + prefix).push(additions@[i as int]));
            assert(keys_of((base + prefix).push(additions@[i as int])) =~= keys_of(base + prefix).push(
                Key::spec_new(additions@[i as int]),
            ));
        }
        lessons.push(next);
        i = i + 1;
    }
    lessons
}

} // verus!
