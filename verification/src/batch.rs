use vstd::prelude::*;

verus! {

/// An ASCII upper-case letter folded to lower case; every other byte is
/// left alone.
pub open spec fn lower_byte(c: u8) -> u8 {
    if 65 <= c <= 90 {
        (c + 32) as u8
    } else {
        c
    }
}

/// The bytes with their ASCII letters folded to lower case.
pub open spec fn lowered(s: Seq<u8>) -> Seq<u8> {
    s.map_values(|c: u8| lower_byte(c))
}

/// The extension names an image format the batch handles, compared without
/// regard to ASCII case: the byte sequences below spell `jpg`, `jpeg` and
/// `png`.
pub open spec fn is_supported_extension_spec(e: Seq<u8>) -> bool {
    ||| lowered(e) == seq![106u8, 112u8, 103u8]
    ||| lowered(e) == seq![106u8, 112u8, 101u8, 103u8]
    ||| lowered(e) == seq![112u8, 110u8, 103u8]
}

/// Fold one ASCII byte to lower case.
fn lower_ascii(c: u8) -> (r: u8)
    ensures
        r == lower_byte(c),
{
    if 65 <= c && c <= 90 {
        c + 32
    } else {
        c
    }
}

/// Decide whether a file extension (the part after the last dot of the file
/// name, without the dot) selects the file for processing: only `jpg`,
/// `jpeg` and `png` do, in any mix of ASCII case. Everything else is
/// ignored entirely.
pub fn is_supported_extension(ext: &[u8]) -> (r: bool)
    ensures
        r == is_supported_extension_spec(ext@),
{
    if ext.len() == 3 {
        let c0 = lower_ascii(ext[0]);
        let c1 = lower_ascii(ext[1]);
        let c2 = lower_ascii(ext[2]);
        let hit = (c0 == 106 && c1 == 112 && c2 == 103) || (c0 == 112 && c1 == 110 && c2 == 103);
        proof {
            if hit {
                if c0 == 106 {
                    assert(lowered(ext@) =~= seq![106u8, 112u8, 103u8]);
                } else {
                    assert(lowered(ext@) =~= seq![112u8, 110u8, 103u8]);
                }
            } else {
                assert(lowered(ext@)[0] == c0 && lowered(ext@)[1] == c1 && lowered(ext@)[2] == c2);
                assert(seq![106u8, 112u8, 103u8][0] == 106u8);
                assert(seq![106u8, 112u8, 103u8][1] == 112u8);
                assert(seq![106u8, 112u8, 103u8][2] == 103u8);
                assert(seq![112u8, 110u8, 103u8][0] == 112u8);
                assert(seq![112u8, 110u8, 103u8][1] == 110u8);
                assert(seq![112u8, 110u8, 103u8][2] == 103u8);
                assert(lowered(ext@).len() == 3);
                assert(seq![106u8, 112u8, 101u8, 103u8].len() == 4);
            }
        }
        hit
    } else if ext.len() == 4 {
        let c0 = lower_ascii(ext[0]);
        let c1 = lower_ascii(ext[1]);
        let c2 = lower_ascii(ext[2]);
        let c3 = lower_ascii(ext[3]);
        let hit = c0 == 106 && c1 == 112 && c2 == 101 && c3 == 103;
        proof {
            if hit {
                assert(lowered(ext@) =~= seq![106u8, 112u8, 101u8, 103u8]);
            } else {
                assert(lowered(ext@)[0] == c0 && lowered(ext@)[1] == c1 && lowered(ext@)[2] == c2
                    && lowered(ext@)[3] == c3);
                assert(seq![106u8, 112u8, 101u8, 103u8][0] == 106u8);
                assert(seq![106u8, 112u8, 101u8, 103u8][1] == 112u8);
                assert(seq![106u8, 112u8, 101u8, 103u8][2] == 101u8);
                assert(seq![106u8, 112u8, 101u8, 103u8][3] == 103u8);
                assert(lowered(ext@).len() == 4);
                assert(seq![106u8, 112u8, 103u8].len() == 3);
                assert(seq![112u8, 110u8, 103u8].len() == 3);
            }
        }
        hit
    } else {
        proof {
            assert(lowered(ext@).len() == ext@.len());
            assert(seq![106u8, 112u8, 103u8].len() == 3);
            assert(seq![106u8, 112u8, 101u8, 103u8].len() == 4);
            assert(seq![112u8, 110u8, 103u8].len() == 3);
        }
        false
    }
}

} // verus!
