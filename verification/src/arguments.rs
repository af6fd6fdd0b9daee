//! The command line of the client and server programs.
use vstd::prelude::*;
use crate::parse::{parse_usize, parsed_usize};

verus! {

/// Messages exchanged when the command line names no count.
pub const DEFAULT_MESSAGE_COUNT: usize = 1000;

/// The message count that `args` (the arguments after the program's name)
/// ask for: the last argument that reads as a number, or the default.
pub open spec fn message_count_of(args: Seq<String>) -> usize
    decreases args.len(),
{
    if args.len() == 0 {
        DEFAULT_MESSAGE_COUNT
    } else {
        match parsed_usize(args.last()@) {
            Some(c) => c,
            None => message_count_of(args.drop_last()),
        }
    }
}

/// The message count asked for by the command line `args`, whose first
/// element is the program's name.
pub fn message_count(args: &Vec<String>) -> (count: usize)
    requires
        args@.len() >= 1,
    ensures
        count == message_count_of(args@.skip(1)),
{
    let mut count: usize = DEFAULT_MESSAGE_COUNT;
    let mut i: usize = 1;
    while i < args.len()
        invariant
            1 <= i <= args@.len(),
            count == message_count_of(args@.subrange(1, i as int)),
        decreases args.len() - i,
    {
        proof {
            assert(args@.subrange(1, i + 1).drop_last() =~= args@.subrange(1, i as int));
            assert(args@.subrange(1, i + 1).last() == args@[i as int]);
        }
        match parse_usize(args[i].as_str()) {
            Some(c) => {
                count = c;
            },
            None => {},
        }
        i = i + 1;
    }
    assert(args@.subrange(1, args@.len() as int) =~= args@.skip(1));
    count
}


/// The message count is the value of the last argument that reads as a
/// number, whatever comes before it and whatever non-numbers follow it.
pub proof fn law_last_number_wins(args: Seq<String>, i: int)
    requires
        0 <= i < args.len(),
        parsed_usize(args[i]@) is Some,
        forall|j: int| i < j < args.len() ==> #[trigger] parsed_usize(args[j]@) is None,
    ensures
        message_count_of(args) == parsed_usize(args[i]@).unwrap(),
    decreases args.len(),
{
    if i < args.len() - 1 {
        let shorter = args.drop_last();
        assert forall|j: int| i < j < shorter.len() implies #[trigger] parsed_usize(shorter[j]@) is None by {
            assert(shorter[j] == args[j]);
        }
        assert(parsed_usize(args[args.len() - 1]@) is None);
        law_last_number_wins(shorter, i);
        assert(shorter[i] == args[i]);
    }
}

/// Without an argument that reads as a number the count is the default.
pub proof fn law_no_number_gives_default(args: Seq<String>)
    requires
        forall|j: int| 0 <= j < args.len() ==> #[trigger] parsed_usize(args[j]@) is None,
    ensures
        message_count_of(args) == DEFAULT_MESSAGE_COUNT,
    decreases args.len(),
{
    if args.len() > 0 {
        let shorter = args.drop_last();
        assert forall|j: int| 0 <= j < shorter.len() implies #[trigger] parsed_usize(shorter[j]@) is None by {
            assert(shorter[j] == args[j]);
        }
        assert(parsed_usize(args[args.len() - 1]@) is None);
        law_no_number_gives_default(shorter);
    }
}

} // verus!
