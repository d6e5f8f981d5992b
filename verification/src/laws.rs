use vstd::prelude::*;

use crate::rolls::five_star_chance;
use crate::rolls::four_star_chance;
use crate::rolls::resolve_choice;
use crate::rolls::ItemType;

verus! {

/// Law: over the whole base range of the five-star table, the chance is the
/// flat base rate of 6 per mille.
pub proof fn lemma_five_star_base_rate(pity: int)
    requires
        0 <= pity <= 74,
    ensures
        five_star_chance(pity) == 6,
{
}

/// Law: over the ramp range of the five-star table, the chance follows the
/// linear ramp and never reaches certainty.
pub proof fn lemma_five_star_ramp(pity: int)
    requires
        75 <= pity <= 90,
    ensures
        five_star_chance(pity) == 60 + (pity - 75) * 60,
        five_star_chance(pity) < 1000,
{
}

/// Law: the five-star ramp is strictly increasing.
pub proof fn lemma_five_star_ramp_strictly_increasing(a: int, b: int)
    requires
        75 <= a < b <= 90,
    ensures
        five_star_chance(a) < five_star_chance(b),
{
}

/// Law: past the end of the five-star table there is no entry and so no
/// hard guarantee; the chance falls back to 0.
pub proof fn lemma_five_star_no_ceiling(pity: int)
    requires
        pity > 90,
    ensures
        five_star_chance(pity) == 0,
{
}

/// Law: the four-star table holds the flat rate up to pity 8, the raised
/// rate at pity 9, and the hard guarantee at pity 10.
pub proof fn lemma_four_star_rates(pity: int)
    ensures
        0 <= pity <= 8 ==> four_star_chance(pity) == 51,
        four_star_chance(9) == 561,
        four_star_chance(10) == 1000,
{
}

/// The tags the character-class resolver yields on its character-branch
/// resolutions, in order, when a sequence of branch draws is applied from a
/// starting flag. A `true` entry of `branches` is a character-branch draw;
/// weapon-branch draws leave the flag alone and add no outcome here.
pub open spec fn character_branch_outcomes(
    flag: bool,
    branches: Seq<bool>,
    limited: ItemType,
    standard: ItemType,
    weapon: ItemType,
) -> Seq<ItemType>
    decreases branches.len(),
{
    if branches.len() == 0 {
        Seq::empty()
    } else {
        let step = resolve_choice(flag, limited, standard, weapon, branches[0]);
        let rest = character_branch_outcomes(step.1, branches.drop_first(), limited, standard, weapon);
        if branches[0] {
            seq![step.0] + rest
        } else {
            rest
        }
    }
}

/// Alternation law: across successive character-branch resolutions the
/// outcome alternates strictly between the limited and the standard tag,
/// whatever weapon-branch resolutions fall in between. From an unset flag
/// the run starts at the limited tag; from a set flag at the standard tag.
pub proof fn lemma_character_branch_alternation(
    flag: bool,
    branches: Seq<bool>,
    limited: ItemType,
    standard: ItemType,
    weapon: ItemType,
    i: int,
)
    requires
        0 <= i < character_branch_outcomes(flag, branches, limited, standard, weapon).len(),
    ensures
        character_branch_outcomes(flag, branches, limited, standard, weapon)[i] == if (i + if flag {
            1int
        } else {
            0int
        }) % 2 == 0 {
            limited
        } else {
            standard
        },
    decreases branches.len(),
{
    let outs = character_branch_outcomes(flag, branches, limited, standard, weapon);
    if branches.len() == 0 {
    } else {
        let step = resolve_choice(flag, limited, standard, weapon, branches[0]);
        let rest = character_branch_outcomes(
            step.1,
            branches.drop_first(),
            limited,
            standard,
            weapon,
        );
        if branches[0] {
            assert(outs == seq![step.0] + rest);
            if i == 0 {
                assert(outs[0] == step.0);
            } else {
                lemma_character_branch_alternation(
                    step.1,
                    branches.drop_first(),
                    limited,
                    standard,
                    weapon,
                    i - 1,
                );
                assert(outs[i] == rest[i - 1]);
            }
        } else {
            lemma_character_branch_alternation(
                flag,
                branches.drop_first(),
                limited,
                standard,
                weapon,
                i,
            );
        }
    }
}

/// Corollary of the alternation law: when the limited and the standard tag
/// differ, no two successive character-branch outcomes are ever equal.
pub proof fn lemma_character_branch_no_repeat(
    flag: bool,
    branches: Seq<bool>,
    limited: ItemType,
    standard: ItemType,
    weapon: ItemType,
    i: int,
)
    requires
        limited != standard,
        0 <= i,
        i + 1 < character_branch_outcomes(flag, branches, limited, standard, weapon).len(),
    ensures
        character_branch_outcomes(flag, branches, limited, standard, weapon)[i]
            != character_branch_outcomes(flag, branches, limited, standard, weapon)[i + 1],
{
    lemma_character_branch_alternation(flag, branches, limited, standard, weapon, i);
    lemma_character_branch_alternation(flag, branches, limited, standard, weapon, i + 1);
}

} // verus!
