//! The candidate keys, written out pass by pass, with the proof that
//! generation yields exactly them.
//!
//! Each generation pass walks twelve chromatic starting positions over one
//! tonic table and keeps the tonics on the circle of fifths; these lists
//! pin the outcome of that walk, key by key and chord by chord. Sorting
//! and de-duplication of the four passes then shape the final catalog.
//! The lists are kept opaque so each proof sees only the lists it names.

use crate::keys::candidate_keys;
use crate::keys::gen_major_from;
use crate::keys::gen_minor_from;
use crate::keys::major_tonics;
use crate::keys::minor_tonics;
use crate::keys::rejected_major;
use crate::keys::rejected_minor;
use crate::keys::KeyV;
use vstd::prelude::*;

verus! {

/// Packs a tonic and chord list into a key model.
pub open spec fn keyv(tonic: Seq<char>, chords: Seq<Seq<char>>) -> KeyV {
    KeyV { tonic, chords }
}

/// The nine major keys of the sharp-spelling pass.
#[verifier::opaque]
pub open spec fn pass_major_sharps() -> Seq<KeyV> {
    seq![
        keyv(seq!['C'], seq![seq!['C'], seq!['D', 'm'], seq!['E', 'm'], seq!['F'], seq!['G'], seq!['A', 'm'], seq!['B', 'm']]),
        keyv(seq!['C', '#'], seq![seq!['C', '#'], seq!['D', '#', 'm'], seq!['F', 'm'], seq!['F', '#'], seq!['G', '#'], seq!['A', '#', 'm'], seq!['C', 'm']]),
        keyv(seq!['D'], seq![seq!['D'], seq!['E', 'm'], seq!['F', '#', 'm'], seq!['G'], seq!['A'], seq!['B', 'm'], seq!['C', '#', 'm']]),
        keyv(seq!['E'], seq![seq!['E'], seq!['F', '#', 'm'], seq!['G', '#', 'm'], seq!['A'], seq!['B'], seq!['C', '#', 'm'], seq!['D', '#', 'm']]),
        keyv(seq!['F'], seq![seq!['F'], seq!['G', 'm'], seq!['A', 'm'], seq!['A', '#'], seq!['C'], seq!['D', 'm'], seq!['E', 'm']]),
        keyv(seq!['F', '#'], seq![seq!['F', '#'], seq!['G', '#', 'm'], seq!['A', '#', 'm'], seq!['B'], seq!['C', '#'], seq!['D', '#', 'm'], seq!['F', 'm']]),
        keyv(seq!['G'], seq![seq!['G'], seq!['A', 'm'], seq!['B', 'm'], seq!['C'], seq!['D'], seq!['E', 'm'], seq!['F', '#', 'm']]),
        keyv(seq!['A'], seq![seq!['A'], seq!['B', 'm'], seq!['C', '#', 'm'], seq!['D'], seq!['E'], seq!['F', '#', 'm'], seq!['G', '#', 'm']]),
        keyv(seq!['B'], seq![seq!['B'], seq!['C', '#', 'm'], seq!['D', '#', 'm'], seq!['E'], seq!['F', '#'], seq!['G', '#', 'm'], seq!['A', '#', 'm']]),
    ]
}

/// The eleven major keys of the flat-spelling pass.
#[verifier::opaque]
pub open spec fn pass_major_flats() -> Seq<KeyV> {
    seq![
        keyv(seq!['C'], seq![seq!['C'], seq!['D', 'm'], seq!['F', 'b', 'm'], seq!['F'], seq!['G'], seq!['A', 'm'], seq!['C', 'b', 'm']]),
        keyv(seq!['D', 'b'], seq![seq!['D', 'b'], seq!['E', 'b', 'm'], seq!['F', 'm'], seq!['G', 'b'], seq!['A', 'b'], seq!['B', 'b', 'm'], seq!['C', 'm']]),
        keyv(seq!['D'], seq![seq!['D'], seq!['F', 'b', 'm'], seq!['G', 'b', 'm'], seq!['G'], seq!['A'], seq!['C', 'b', 'm'], seq!['D', 'b', 'm']]),
        keyv(seq!['E', 'b'], seq![seq!['E', 'b'], seq!['F', 'm'], seq!['G', 'm'], seq!['A', 'b'], seq!['B', 'b'], seq!['C', 'm'], seq!['D', 'm']]),
        keyv(seq!['F'], seq![seq!['F'], seq!['G', 'm'], seq!['A', 'm'], seq!['B', 'b'], seq!['C'], seq!['D', 'm'], seq!['F', 'b', 'm']]),
        keyv(seq!['G', 'b'], seq![seq!['G', 'b'], seq!['A', 'b', 'm'], seq!['B', 'b', 'm'], seq!['C', 'b'], seq!['D', 'b'], seq!['E', 'b', 'm'], seq!['F', 'm']]),
        keyv(seq!['G'], seq![seq!['G'], seq!['A', 'm'], seq!['C', 'b', 'm'], seq!['C'], seq!['D'], seq!['F', 'b', 'm'], seq!['G', 'b', 'm']]),
        keyv(seq!['A', 'b'], seq![seq!['A', 'b'], seq!['B', 'b', 'm'], seq!['C', 'm'], seq!['D', 'b'], seq!['E', 'b'], seq!['F', 'm'], seq!['G', 'm']]),
        keyv(seq!['A'], seq![seq!['A'], seq!['C', 'b', 'm'], seq!['D', 'b', 'm'], seq!['D'], seq!['F', 'b'], seq!['G', 'b', 'm'], seq!['A', 'b', 'm']]),
        keyv(seq!['B', 'b'], seq![seq!['B', 'b'], seq!['C', 'm'], seq!['D', 'm'], seq!['E', 'b'], seq!['F'], seq!['G', 'm'], seq!['A', 'm']]),
        keyv(seq!['C', 'b'], seq![seq!['C', 'b'], seq!['D', 'b', 'm'], seq!['E', 'b', 'm'], seq!['F', 'b'], seq!['G', 'b'], seq!['A', 'b', 'm'], seq!['B', 'b', 'm']]),
    ]
}

/// The twelve natural-minor keys of the sharp-spelling pass.
#[verifier::opaque]
pub open spec fn pass_minor_sharps() -> Seq<KeyV> {
    seq![
        keyv(seq!['C', 'm'], seq![seq!['C', 'm'], seq!['D', 'm'], seq!['D', '#'], seq!['F', 'm'], seq!['G', 'm'], seq!['G', '#'], seq!['A', '#']]),
        keyv(seq!['C', '#', 'm'], seq![seq!['C', '#', 'm'], seq!['D', '#', 'm'], seq!['E'], seq!['F', '#', 'm'], seq!['G', '#', 'm'], seq!['A'], seq!['B']]),
        keyv(seq!['D', 'm'], seq![seq!['D', 'm'], seq!['E', 'm'], seq!['F'], seq!['G', 'm'], seq!['A', 'm'], seq!['A', '#'], seq!['C']]),
        keyv(seq!['D', '#', 'm'], seq![seq!['D', '#', 'm'], seq!['F', 'm'], seq!['F', '#'], seq!['G', '#', 'm'], seq!['A', '#', 'm'], seq!['B'], seq!['C', '#']]),
        keyv(seq!['E', 'm'], seq![seq!['E', 'm'], seq!['F', '#', 'm'], seq!['G'], seq!['A', 'm'], seq!['B', 'm'], seq!['C'], seq!['D']]),
        keyv(seq!['F', 'm'], seq![seq!['F', 'm'], seq!['G', 'm'], seq!['G', '#'], seq!['A', '#', 'm'], seq!['C', 'm'], seq!['C', '#'], seq!['D', '#']]),
        keyv(seq!['F', '#', 'm'], seq![seq!['F', '#', 'm'], seq!['G', '#', 'm'], seq!['A'], seq!['B', 'm'], seq!['C', '#', 'm'], seq!['D'], seq!['E']]),
        keyv(seq!['G', 'm'], seq![seq!['G', 'm'], seq!['A', 'm'], seq!['A', '#'], seq!['C', 'm'], seq!['D', 'm'], seq!['D', '#'], seq!['F']]),
        keyv(seq!['G', '#', 'm'], seq![seq!['G', '#', 'm'], seq!['A', '#', 'm'], seq!['B'], seq!['C', '#', 'm'], seq!['D', '#', 'm'], seq!['E'], seq!['F', '#']]),
        keyv(seq!['A', 'm'], seq![seq!['A', 'm'], seq!['B', 'm'], seq!['C'], seq!['D', 'm'], seq!['E', 'm'], seq!['F'], seq!['G']]),
        keyv(seq!['A', '#', 'm'], seq![seq!['A', '#', 'm'], seq!['C', 'm'], seq!['C', '#'], seq!['D', '#', 'm'], seq!['F', 'm'], seq!['F', '#'], seq!['G', '#']]),
        keyv(seq!['B', 'm'], seq![seq!['B', 'm'], seq!['C', '#', 'm'], seq!['D'], seq!['E', 'm'], seq!['F', '#', 'm'], seq!['G'], seq!['A']]),
    ]
}

/// The ten natural-minor keys of the flat-spelling pass.
#[verifier::opaque]
pub open spec fn pass_minor_flats() -> Seq<KeyV> {
    seq![
        keyv(seq!['C', 'm'], seq![seq!['C', 'm'], seq!['D', 'm'], seq!['E', 'b'], seq!['F', 'm'], seq!['G', 'm'], seq!['A', 'b'], seq!['B', 'b']]),
        keyv(seq!['D', 'm'], seq![seq!['D', 'm'], seq!['E', 'm'], seq!['F'], seq!['G', 'm'], seq!['A', 'm'], seq!['B', 'b'], seq!['C']]),
        keyv(seq!['E', 'b', 'm'], seq![seq!['E', 'b', 'm'], seq!['F', 'm'], seq!['G', 'b'], seq!['A', 'b', 'm'], seq!['B', 'b', 'm'], seq!['B'], seq!['D', 'b']]),
        keyv(seq!['E', 'm'], seq![seq!['E', 'm'], seq!['G', 'b', 'm'], seq!['G'], seq!['A', 'm'], seq!['B', 'm'], seq!['C'], seq!['D']]),
        keyv(seq!['F', 'm'], seq![seq!['F', 'm'], seq!['G', 'm'], seq!['A', 'b'], seq!['B', 'b', 'm'], seq!['C', 'm'], seq!['D', 'b'], seq!['E', 'b']]),
        keyv(seq!['G', 'm'], seq![seq!['G', 'm'], seq!['A', 'm'], seq!['B', 'b'], seq!['C', 'm'], seq!['D', 'm'], seq!['E', 'b'], seq!['F']]),
        keyv(seq!['A', 'b', 'm'], seq![seq!['A', 'b', 'm'], seq!['B', 'b', 'm'], seq!['B'], seq!['D', 'b', 'm'], seq!['E', 'b', 'm'], seq!['E'], seq!['G', 'b']]),
        keyv(seq!['A', 'm'], seq![seq!['A', 'm'], seq!['B', 'm'], seq!['C'], seq!['D', 'm'], seq!['E', 'm'], seq!['F'], seq!['G']]),
        keyv(seq!['B', 'b', 'm'], seq![seq!['B', 'b', 'm'], seq!['C', 'm'], seq!['D', 'b'], seq!['E', 'b', 'm'], seq!['F', 'm'], seq!['G', 'b'], seq!['A', 'b']]),
        keyv(seq!['B', 'm'], seq![seq!['B', 'm'], seq!['D', 'b', 'm'], seq!['D'], seq!['E', 'm'], seq!['G', 'b', 'm'], seq!['G'], seq!['A']]),
    ]
}

/// The major pass yields exactly [`pass_major_sharps`].
#[verifier::rlimit(100)]
pub proof fn law_pass_major_sharps()
    ensures
        gen_major_from(true, 0) == pass_major_sharps(),
        pass_major_sharps().len() == 9,
{
    reveal(pass_major_sharps);
    assert(seq!['A', '#'].len() == 2);
    assert(seq!['B', '#'].len() == 2);
    assert(seq!['D', '#'].len() == 2);
    assert(seq!['E', '#'].len() == 2);
    assert(seq!['F', 'b'].len() == 2);
    assert(seq!['G', '#'].len() == 2);
    assert(major_tonics(true)[0] =~= seq!['C']);
    assert(major_tonics(true)[1] =~= seq!['C', '#']);
    assert(major_tonics(true)[2] =~= seq!['D']);
    assert(major_tonics(true)[3] =~= seq!['D', '#']);
    assert(major_tonics(true)[4] =~= seq!['E']);
    assert(major_tonics(true)[5] =~= seq!['F']);
    assert(major_tonics(true)[6] =~= seq!['F', '#']);
    assert(major_tonics(true)[7] =~= seq!['G']);
    assert(major_tonics(true)[8] =~= seq!['G', '#']);
    assert(major_tonics(true)[9] =~= seq!['A']);
    assert(major_tonics(true)[10] =~= seq!['A', '#']);
    assert(major_tonics(true)[11] =~= seq!['B']);
    assert(!rejected_major(major_tonics(true)[0]));
    assert(!rejected_major(major_tonics(true)[1]));
    assert(!rejected_major(major_tonics(true)[2]));
    assert(rejected_major(major_tonics(true)[3]));
    assert(!rejected_major(major_tonics(true)[4]));
    assert(!rejected_major(major_tonics(true)[5]));
    assert(!rejected_major(major_tonics(true)[6]));
    assert(!rejected_major(major_tonics(true)[7]));
    assert(rejected_major(major_tonics(true)[8]));
    assert(!rejected_major(major_tonics(true)[9]));
    assert(rejected_major(major_tonics(true)[10]));
    assert(!rejected_major(major_tonics(true)[11]));
    reveal_with_fuel(gen_major_from, 13);
    reveal_with_fuel(crate::keys::major_scale_from, 8);
    assert(gen_major_from(true, 0) =~~= pass_major_sharps());
}

/// The major pass yields exactly [`pass_major_flats`].
#[verifier::rlimit(100)]
pub proof fn law_pass_major_flats()
    ensures
        gen_major_from(false, 0) == pass_major_flats(),
        pass_major_flats().len() == 11,
{
    reveal(pass_major_flats);
    assert(seq!['A', '#'].len() == 2);
    assert(seq!['B', '#'].len() == 2);
    assert(seq!['D', '#'].len() == 2);
    assert(seq!['E', '#'].len() == 2);
    assert(seq!['F', 'b'].len() == 2);
    assert(seq!['G', '#'].len() == 2);
    assert(major_tonics(false)[0] =~= seq!['C']);
    assert(major_tonics(false)[1] =~= seq!['D', 'b']);
    assert(major_tonics(false)[2] =~= seq!['D']);
    assert(major_tonics(false)[3] =~= seq!['E', 'b']);
    assert(major_tonics(false)[4] =~= seq!['F', 'b']);
    assert(major_tonics(false)[5] =~= seq!['F']);
    assert(major_tonics(false)[6] =~= seq!['G', 'b']);
    assert(major_tonics(false)[7] =~= seq!['G']);
    assert(major_tonics(false)[8] =~= seq!['A', 'b']);
    assert(major_tonics(false)[9] =~= seq!['A']);
    assert(major_tonics(false)[10] =~= seq!['B', 'b']);
    assert(major_tonics(false)[11] =~= seq!['C', 'b']);
    assert(!rejected_major(major_tonics(false)[0]));
    assert(!rejected_major(major_tonics(false)[1]));
    assert(!rejected_major(major_tonics(false)[2]));
    assert(!rejected_major(major_tonics(false)[3]));
    assert(rejected_major(major_tonics(false)[4]));
    assert(!rejected_major(major_tonics(false)[5]));
    assert(!rejected_major(major_tonics(false)[6]));
    assert(!rejected_major(major_tonics(false)[7]));
    assert(!rejected_major(major_tonics(false)[8]));
    assert(!rejected_major(major_tonics(false)[9]));
    assert(!rejected_major(major_tonics(false)[10]));
    assert(!rejected_major(major_tonics(false)[11]));
    reveal_with_fuel(gen_major_from, 13);
    reveal_with_fuel(crate::keys::major_scale_from, 8);
    assert(gen_major_from(false, 0) =~~= pass_major_flats());
}

/// The natural-minor pass yields exactly [`pass_minor_sharps`].
#[verifier::rlimit(100)]
pub proof fn law_pass_minor_sharps()
    ensures
        gen_minor_from(true, 0) == pass_minor_sharps(),
        pass_minor_sharps().len() == 12,
{
    reveal(pass_minor_sharps);
    assert(seq!['B', '#', 'm'].len() == 3);
    assert(seq!['C', 'b', 'm'].len() == 3);
    assert(seq!['D', 'b', 'm'].len() == 3);
    assert(seq!['E', '#', 'm'].len() == 3);
    assert(seq!['F', 'b', 'm'].len() == 3);
    assert(seq!['G', 'b', 'm'].len() == 3);
    assert(minor_tonics(true)[0] =~= seq!['C', 'm']);
    assert(minor_tonics(true)[1] =~= seq!['C', '#', 'm']);
    assert(minor_tonics(true)[2] =~= seq!['D', 'm']);
    assert(minor_tonics(true)[3] =~= seq!['D', '#', 'm']);
    assert(minor_tonics(true)[4] =~= seq!['E', 'm']);
    assert(minor_tonics(true)[5] =~= seq!['F', 'm']);
    assert(minor_tonics(true)[6] =~= seq!['F', '#', 'm']);
    assert(minor_tonics(true)[7] =~= seq!['G', 'm']);
    assert(minor_tonics(true)[8] =~= seq!['G', '#', 'm']);
    assert(minor_tonics(true)[9] =~= seq!['A', 'm']);
    assert(minor_tonics(true)[10] =~= seq!['A', '#', 'm']);
    assert(minor_tonics(true)[11] =~= seq!['B', 'm']);
    assert(!rejected_minor(minor_tonics(true)[0]));
    assert(!rejected_minor(minor_tonics(true)[1]));
    assert(!rejected_minor(minor_tonics(true)[2]));
    assert(!rejected_minor(minor_tonics(true)[3]));
    assert(!rejected_minor(minor_tonics(true)[4]));
    assert(!rejected_minor(minor_tonics(true)[5]));
    assert(!rejected_minor(minor_tonics(true)[6]));
    assert(!rejected_minor(minor_tonics(true)[7]));
    assert(!rejected_minor(minor_tonics(true)[8]));
    assert(!rejected_minor(minor_tonics(true)[9]));
    assert(!rejected_minor(minor_tonics(true)[10]));
    assert(!rejected_minor(minor_tonics(true)[11]));
    reveal_with_fuel(gen_minor_from, 13);
    reveal_with_fuel(crate::keys::minor_scale_from, 8);
    assert(gen_minor_from(true, 0) =~~= pass_minor_sharps());
}

/// The natural-minor pass yields exactly [`pass_minor_flats`].
#[verifier::rlimit(100)]
pub proof fn law_pass_minor_flats()
    ensures
        gen_minor_from(false, 0) == pass_minor_flats(),
        pass_minor_flats().len() == 10,
{
    reveal(pass_minor_flats);
    assert(seq!['B', '#', 'm'].len() == 3);
    assert(seq!['C', 'b', 'm'].len() == 3);
    assert(seq!['D', 'b', 'm'].len() == 3);
    assert(seq!['E', '#', 'm'].len() == 3);
    assert(seq!['F', 'b', 'm'].len() == 3);
    assert(seq!['G', 'b', 'm'].len() == 3);
    assert(minor_tonics(false)[0] =~= seq!['C', 'm']);
    assert(minor_tonics(false)[1] =~= seq!['D', 'b', 'm']);
    assert(minor_tonics(false)[2] =~= seq!['D', 'm']);
    assert(minor_tonics(false)[3] =~= seq!['E', 'b', 'm']);
    assert(minor_tonics(false)[4] =~= seq!['E', 'm']);
    assert(minor_tonics(false)[5] =~= seq!['F', 'm']);
    assert(minor_tonics(false)[6] =~= seq!['G', 'b', 'm']);
    assert(minor_tonics(false)[7] =~= seq!['G', 'm']);
    assert(minor_tonics(false)[8] =~= seq!['A', 'b', 'm']);
    assert(minor_tonics(false)[9] =~= seq!['A', 'm']);
    assert(minor_tonics(false)[10] =~= seq!['B', 'b', 'm']);
    assert(minor_tonics(false)[11] =~= seq!['B', 'm']);
    assert(!rejected_minor(minor_tonics(false)[0]));
    assert(rejected_minor(minor_tonics(false)[1]));
    assert(!rejected_minor(minor_tonics(false)[2]));
    assert(!rejected_minor(minor_tonics(false)[3]));
    assert(!rejected_minor(minor_tonics(false)[4]));
    assert(!rejected_minor(minor_tonics(false)[5]));
    assert(rejected_minor(minor_tonics(false)[6]));
    assert(!rejected_minor(minor_tonics(false)[7]));
    assert(!rejected_minor(minor_tonics(false)[8]));
    assert(!rejected_minor(minor_tonics(false)[9]));
    assert(!rejected_minor(minor_tonics(false)[10]));
    assert(!rejected_minor(minor_tonics(false)[11]));
    reveal_with_fuel(gen_minor_from, 13);
    reveal_with_fuel(crate::keys::minor_scale_from, 8);
    assert(gen_minor_from(false, 0) =~~= pass_minor_flats());
}

/// The candidate list is exactly the four passes, written out: forty-two
/// keys before de-duplication by tonic.
pub proof fn law_candidates_value()
    ensures
        candidate_keys() == pass_major_sharps() + pass_major_flats() + pass_minor_sharps()
            + pass_minor_flats(),
        candidate_keys().len() == 42,
{
    law_pass_major_sharps();
    law_pass_major_flats();
    law_pass_minor_sharps();
    law_pass_minor_flats();
}

} // verus!
