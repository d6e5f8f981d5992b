use vstd::prelude::*;

use std::collections::HashMap;

verus! {

broadcast use vstd::std_specs::hash::group_hash_axioms;

/// One drawable item of the catalog.
pub struct Item {
    pub name: String,
    pub item_type: ItemType,
    pub description: String,
    pub image_url: String,
}

impl Clone for Item {
    fn clone(&self) -> (r: Item)
        ensures
            r == *self,
    {
        Item {
            name: self.name.clone(),
            item_type: self.item_type,
            description: self.description.clone(),
            image_url: self.image_url.clone(),
        }
    }
}

/// The closed six-way classification of catalog items.
#[derive(Clone, Copy, Debug, PartialEq, Eq, Structural)]
pub enum ItemType {
    FiveStarCharacterLimited,
    FiveStarCharacterStandard,
    FiveStarWeapon,
    FourStarCharacter,
    FourStarWeapon,
    ThreeStarItem,
}

/// A catalog record as it arrives from the catalog source, its type still a
/// plain string.
#[derive(Debug)]
pub struct ItemFromJson {
    pub name: String,
    pub item_type: String,
    pub description: String,
    pub image_url: String,
}

/// The failures the engine reports to its caller.
#[derive(Clone, Copy, Debug, PartialEq, Eq, Structural)]
pub enum GachaError {
    /// A draw resolved to a tier with no catalog item of that type.
    EmptyTier(ItemType),
    /// A multi-draw was requested with zero draws.
    InvalidRollCount,
    /// A catalog record's type string matches none of the six item types.
    UnknownItemType,
}

/// Per-user draw state: the catalog plus the two pity counters and the
/// alternation flag.
pub struct Gacha {
    pub items: Vec<Item>,
    pub five_star_pity_counter: i32,
    pub four_star_pity_counter: i32,
    pub is_last_five_star_item_limited: bool,
}

impl Default for Gacha {
    fn default() -> (g: Gacha)
        ensures
            g.items@ =~= Seq::<Item>::empty(),
            g.five_star_pity_counter == 0,
            g.four_star_pity_counter == 0,
            !g.is_last_five_star_item_limited,
    {
        Gacha {
            items: Vec::new(),
            five_star_pity_counter: 0,
            four_star_pity_counter: 0,
            is_last_five_star_item_limited: false,
        }
    }
}

/// Per-mille hit chance of the five-star tier at a pity count: the base rate
/// up to 74, a linear ramp from 75 to 90, and 0 where the table has no entry
/// (there is no hard guarantee at any pity ceiling for this tier).
pub open spec fn five_star_chance(pity: int) -> int {
    if 0 <= pity < 75 {
        6
    } else if 75 <= pity <= 90 {
        60 + (pity - 75) * 60
    } else {
        0
    }
}

/// Per-mille hit chance of the four-star tier at a pity count: a flat rate up
/// to 8, a raised rate at 9, a hard guarantee at 10, and 0 where the table
/// has no entry.
pub open spec fn four_star_chance(pity: int) -> int {
    if 0 <= pity < 9 {
        51
    } else if pity == 9 {
        561
    } else if pity == 10 {
        1000
    } else {
        0
    }
}

/// What a pity table yields for a pity count: the entry where one exists,
/// else 0.
pub open spec fn table_chance(table: Map<i32, i32>, pity: i32) -> int {
    if table.contains_key(pity) {
        table[pity] as int
    } else {
        0
    }
}

/// The character-class resolver's choice: on the weapon branch the weapon
/// tag with the flag unchanged; on the character branch the standard tag
/// clearing the flag when the flag is set, else the limited tag setting it.
pub open spec fn resolve_choice(
    flag: bool,
    limited: ItemType,
    standard: ItemType,
    weapon: ItemType,
    character_branch: bool,
) -> (ItemType, bool) {
    if !character_branch {
        (weapon, flag)
    } else if flag {
        (standard, false)
    } else {
        (limited, true)
    }
}

/// What one character-class resolution leaves behind, for a known branch
/// and a known index draw: the flag moves as the resolver's choice says,
/// and the result is the chosen bucket's item at the index draw, or the
/// explicit empty-tier failure when that bucket is empty.
pub open spec fn resolved_at(
    pre: Gacha,
    post: Gacha,
    result: Result<Item, GachaError>,
    limited: ItemType,
    standard: ItemType,
    weapon: ItemType,
    character_branch: bool,
    index_draw: int,
) -> bool {
    let choice = resolve_choice(
        pre.is_last_five_star_item_limited,
        limited,
        standard,
        weapon,
        character_branch,
    );
    &&& post.is_last_five_star_item_limited == choice.1
    &&& (bucket_of(pre.items@, choice.0).len() == 0 ==> result == Err::<Item, GachaError>(
        GachaError::EmptyTier(choice.0),
    ))
    &&& (bucket_of(pre.items@, choice.0).len() > 0 ==> result == Ok::<Item, GachaError>(
        bucket_of(pre.items@, choice.0)[index_draw],
    ))
}

/// Which item type a catalog record's type string denotes, if any.
pub open spec fn parsed_tag(s: Seq<char>) -> Option<ItemType> {
    if s == "FiveStarCharacterLimited"@ {
        Some(ItemType::FiveStarCharacterLimited)
    } else if s == "FiveStarCharacterStandard"@ {
        Some(ItemType::FiveStarCharacterStandard)
    } else if s == "FiveStarWeapon"@ {
        Some(ItemType::FiveStarWeapon)
    } else if s == "FourStarCharacter"@ {
        Some(ItemType::FourStarCharacter)
    } else if s == "FourStarWeapon"@ {
        Some(ItemType::FourStarWeapon)
    } else if s == "ThreeStarItem"@ {
        Some(ItemType::ThreeStarItem)
    } else {
        None
    }
}

/// The tag a draw resolves to at known draws: the five-star check runs
/// first; on a miss the four-star check runs; on a second miss the draw
/// falls through to the three-star default. A five-star hit hands the
/// resolver the three five-star tags; a four-star hit hands it the
/// four-star character tag for both the limited and the weapon slot, as
/// the engine defines it.
pub open spec fn rolled_tag(
    pre: Gacha,
    five_draw: int,
    four_draw: int,
    character_branch: bool,
) -> ItemType {
    if five_draw <= five_star_chance(pre.five_star_pity_counter as int) {
        resolve_choice(
            pre.is_last_five_star_item_limited,
            ItemType::FiveStarCharacterLimited,
            ItemType::FiveStarCharacterStandard,
            ItemType::FiveStarWeapon,
            character_branch,
        ).0
    } else if four_draw <= four_star_chance(pre.four_star_pity_counter as int) {
        resolve_choice(
            pre.is_last_five_star_item_limited,
            ItemType::FourStarCharacter,
            ItemType::FourStarWeapon,
            ItemType::FourStarCharacter,
            character_branch,
        ).0
    } else {
        ItemType::ThreeStarItem
    }
}

/// The exact outcome of one draw at known draws. A five-star hit resets the
/// five-star pity and leaves the four-star pity untouched (the four-star
/// check is skipped on that draw); a five-star miss raises the five-star
/// pity by one. A four-star hit then resets the four-star pity; a miss of
/// both checks raises the four-star pity by one, leaves the flag untouched,
/// and yields the three-star bucket's item at the index draw.
pub open spec fn roll_outcome(
    pre: Gacha,
    post: Gacha,
    result: Result<Item, GachaError>,
    five_draw: int,
    four_draw: int,
    character_branch: bool,
    index_draw: int,
) -> bool {
    let five_hit = five_draw <= five_star_chance(pre.five_star_pity_counter as int);
    let four_hit = four_draw <= four_star_chance(pre.four_star_pity_counter as int);
    &&& post.items@ == pre.items@
    &&& (five_hit ==> {
        &&& post.five_star_pity_counter == 0
        &&& post.four_star_pity_counter == pre.four_star_pity_counter
        &&& resolved_at(
            pre,
            post,
            result,
            ItemType::FiveStarCharacterLimited,
            ItemType::FiveStarCharacterStandard,
            ItemType::FiveStarWeapon,
            character_branch,
            index_draw,
        )
    })
    &&& (!five_hit && four_hit ==> {
        &&& post.five_star_pity_counter == pre.five_star_pity_counter + 1
        &&& post.four_star_pity_counter == 0
        &&& resolved_at(
            pre,
            post,
            result,
            ItemType::FourStarCharacter,
            ItemType::FourStarWeapon,
            ItemType::FourStarCharacter,
            character_branch,
            index_draw,
        )
    })
    &&& (!five_hit && !four_hit ==> {
        &&& post.five_star_pity_counter == pre.five_star_pity_counter + 1
        &&& post.four_star_pity_counter == pre.four_star_pity_counter + 1
        &&& post.is_last_five_star_item_limited == pre.is_last_five_star_item_limited
        &&& (bucket_of(pre.items@, ItemType::ThreeStarItem).len() == 0 ==> result == Err::<
            Item,
            GachaError,
        >(GachaError::EmptyTier(ItemType::ThreeStarItem)))
        &&& (bucket_of(pre.items@, ItemType::ThreeStarItem).len() > 0 ==> result == Ok::<
            Item,
            GachaError,
        >(bucket_of(pre.items@, ItemType::ThreeStarItem)[index_draw]))
    })
}

/// The items of a catalog sequence that carry the given type, in catalog
/// order.
pub open spec fn bucket_of(items: Seq<Item>, item_type: ItemType) -> Seq<Item> {
    items.filter(|it: Item| it.item_type == item_type)
}

/// A catalog that can serve every draw: each of the six item types has at
/// least one item.
pub open spec fn catalog_complete(items: Seq<Item>) -> bool {
    forall|t: ItemType| #![trigger bucket_of(items, t)] bucket_of(items, t).len() > 0
}

/// Every item of a bucket carries the bucket's type and comes from the
/// catalog sequence the bucket was filtered from.
pub proof fn lemma_bucket_items(items: Seq<Item>, item_type: ItemType, i: int)
    requires
        0 <= i < bucket_of(items, item_type).len(),
    ensures
        bucket_of(items, item_type)[i].item_type == item_type,
        items.contains(bucket_of(items, item_type)[i]),
{
    items.lemma_filter_pred(|it: Item| it.item_type == item_type, i);
    assert(bucket_of(items, item_type).contains(bucket_of(items, item_type)[i]));
    items.lemma_filter_contains_rev(
        |it: Item| it.item_type == item_type,
        bucket_of(items, item_type)[i],
    );
}

impl Gacha {
    /// Builds the five-star pity table: a per-mille chance for every pity
    /// count from 0 to 90 and no other entry.
    pub fn build_five_star_pity_chances(&self) -> (table: HashMap<i32, i32>)
        ensures
            forall|p: i32| #[trigger] table@.contains_key(p) <==> 0 <= p <= 90,
            forall|p: i32| table_chance(table@, p) == five_star_chance(p as int),
    {
        let mut table: HashMap<i32, i32> = HashMap::new();

        let mut pity: i32 = 0;
        while pity < 75
            invariant
                0 <= pity <= 75,
                forall|p: i32| #[trigger] table@.contains_key(p) <==> 0 <= p < pity,
                forall|p: i32| 0 <= p < pity ==> #[trigger] table@[p] == 6,
            decreases 75 - pity,
        {
            table.insert(pity, 6);
            pity = pity + 1;
        }

        // the chance grows by 60 per-mille with each pity count past 75
        while pity <= 90
            invariant
                75 <= pity <= 91,
                forall|p: i32| #[trigger] table@.contains_key(p) <==> 0 <= p < pity,
                forall|p: i32| 0 <= p < 75 ==> #[trigger] table@[p] == 6,
                forall|p: i32| 75 <= p < pity ==> #[trigger] table@[p] == 60 + (p - 75) * 60,
            decreases 91 - pity,
        {
            table.insert(pity, 60 + (pity - 75) * 60);
            pity = pity + 1;
        }

        table
    }

    /// Builds the four-star pity table: a per-mille chance for every pity
    /// count from 0 to 10 and no other entry.
    pub fn build_four_star_pity_chances(&self) -> (table: HashMap<i32, i32>)
        ensures
            forall|p: i32| #[trigger] table@.contains_key(p) <==> 0 <= p <= 10,
            forall|p: i32| table_chance(table@, p) == four_star_chance(p as int),
    {
        let mut table: HashMap<i32, i32> = HashMap::new();

        let mut pity: i32 = 0;
        while pity < 9
            invariant
                0 <= pity <= 9,
                forall|p: i32| #[trigger] table@.contains_key(p) <==> 0 <= p < pity,
                forall|p: i32| 0 <= p < pity ==> #[trigger] table@[p] == 51,
            decreases 9 - pity,
        {
            table.insert(pity, 51);
            pity = pity + 1;
        }

        // pity 9 gives 56.1%, and pity 10 is the hard guarantee
        table.insert(9, 561);
        table.insert(10, 1000);

        table
    }

    /// The chance a pity table holds for a pity count, 0 where it has no
    /// entry.
    pub fn pity_chance_of(pity_chances: &HashMap<i32, i32>, pity_counter: i32) -> (chance: i32)
        ensures
            chance as int == table_chance(pity_chances@, pity_counter),
    {
        match pity_chances.get(&pity_counter) {
            Some(chance) => *chance,
            None => 0,
        }
    }

    /// The hit test at a known draw: a hit iff the draw does not exceed the
    /// table's chance for the pity count.
    pub fn chance_hit_with_draw(
        pity_counter: i32,
        pity_chances: &HashMap<i32, i32>,
        draw: i32,
    ) -> (hit: bool)
        ensures
            hit == (draw as int <= table_chance(pity_chances@, pity_counter)),
    {
        draw <= Self::pity_chance_of(pity_chances, pity_counter)
    }

    /// Draws once in [0, 1000] and tests the draw against the table. Of the
    /// random outcome only this holds on every run: a table chance of at
    /// least 1000 cannot miss.
    pub fn chance_hit(&self, pity_counter: i32, pity_chances: &HashMap<i32, i32>) -> (hit: bool)
        ensures
            table_chance(pity_chances@, pity_counter) >= 1000 ==> hit,
    {
        let draw = crate::rng::draw_inclusive(0, 1000);
        Self::chance_hit_with_draw(pity_counter, pity_chances, draw)
    }

    /// The catalog bucket for an item type: every item of that type, in
    /// catalog order.
    pub fn items_of_type(&self, item_type: ItemType) -> (bucket: Vec<Item>)
        ensures
            bucket@ == bucket_of(self.items@, item_type),
    {
        let mut bucket: Vec<Item> = Vec::new();
        let mut i: usize = 0;
        while i < self.items.len()
            invariant
                i <= self.items@.len(),
                bucket@ == bucket_of(self.items@.take(i as int), item_type),
            decreases self.items@.len() - i,
        {
            let it = &self.items[i];
            proof {
                reveal(Seq::filter);
                assert(self.items@.take(i + 1).drop_last() =~= self.items@.take(i as int));
                assert(self.items@.take(i + 1).last() == self.items@[i as int]);
            }
            if it.item_type == item_type {
                bucket.push(it.clone());
            }
            i = i + 1;
        }
        proof {
            assert(self.items@.take(self.items@.len() as int) =~= self.items@);
        }
        bucket
    }

    /// The item at an ordinal position of a type's bucket: a selection whose
    /// index draw is fixed returns exactly the bucket item at that ordinal,
    /// in the order the catalog was loaded.
    pub fn item_of_type_at(&self, item_type: ItemType, index: usize) -> (item: Item)
        requires
            index < bucket_of(self.items@, item_type).len(),
        ensures
            item == bucket_of(self.items@, item_type)[index as int],
            item.item_type == item_type,
    {
        proof {
            lemma_bucket_items(self.items@, item_type, index as int);
        }
        let bucket = self.items_of_type(item_type);
        bucket[index].clone()
    }

    /// Selects uniformly from the bucket of a type: an explicit empty-tier
    /// failure when the bucket is empty, else a bucket item at a uniformly
    /// drawn index.
    pub fn random_item_of_type(&self, item_type: ItemType) -> (result: Result<Item, GachaError>)
        ensures
            bucket_of(self.items@, item_type).len() == 0 <==> result is Err,
            result matches Err(e) ==> e == GachaError::EmptyTier(item_type),
            result matches Ok(item) ==> bucket_of(self.items@, item_type).contains(item)
                && item.item_type == item_type && self.items@.contains(item),
    {
        let bucket_len = self.items_of_type(item_type).len();
        if bucket_len == 0 {
            Err(GachaError::EmptyTier(item_type))
        } else {
            let index = crate::rng::draw_index(bucket_len);
            let item = self.item_of_type_at(item_type, index);
            proof {
                assert(bucket_of(self.items@, item_type).contains(item)) by {
                    assert(bucket_of(self.items@, item_type)[index as int] == item);
                }
                lemma_bucket_items(self.items@, item_type, index as int);
            }
            Ok(item)
        }
    }

    /// The character-class resolution at known draws: the branch flag picks
    /// the weapon or the character branch, the character branch alternates
    /// via the session flag, and the item is the chosen bucket's entry at
    /// the index draw.
    pub fn pity_roll_with_draw(
        &mut self,
        limited: ItemType,
        standard: ItemType,
        weapon: ItemType,
        character_branch: bool,
        index_draw: usize,
    ) -> (result: Result<Item, GachaError>)
        requires
            ({
                let tag = resolve_choice(
                    old(self).is_last_five_star_item_limited,
                    limited,
                    standard,
                    weapon,
                    character_branch,
                ).0;
                bucket_of(old(self).items@, tag).len() == 0 || index_draw < bucket_of(
                    old(self).items@,
                    tag,
                ).len()
            }),
        ensures
            final(self).items@ == old(self).items@,
            final(self).five_star_pity_counter == old(self).five_star_pity_counter,
            final(self).four_star_pity_counter == old(self).four_star_pity_counter,
            resolved_at(
                *old(self),
                *final(self),
                result,
                limited,
                standard,
                weapon,
                character_branch,
                index_draw as int,
            ),
    {
        let tag: ItemType;
        if character_branch {
            if self.is_last_five_star_item_limited {
                self.is_last_five_star_item_limited = false;
                tag = standard;
            } else {
                self.is_last_five_star_item_limited = true;
                tag = limited;
            }
        } else {
            tag = weapon;
        }
        let bucket_len = self.items_of_type(tag).len();
        if bucket_len == 0 {
            Err(GachaError::EmptyTier(tag))
        } else {
            Ok(self.item_of_type_at(tag, index_draw))
        }
    }

    /// One character-class resolution with fresh draws: a uniform branch
    /// bit, then a uniform index into the chosen bucket. The pity counters
    /// and the catalog are untouched; whichever branch the bit picked, the
    /// flag and the result follow the resolver's choice for it.
    pub fn pity_roll(
        &mut self,
        limited: ItemType,
        standard: ItemType,
        weapon: ItemType,
    ) -> (result: Result<Item, GachaError>)
        ensures
            final(self).items@ == old(self).items@,
            final(self).five_star_pity_counter == old(self).five_star_pity_counter,
            final(self).four_star_pity_counter == old(self).four_star_pity_counter,
            exists|character_branch: bool, index_draw: int|
                0 <= index_draw && resolved_at(
                    *old(self),
                    *final(self),
                    result,
                    limited,
                    standard,
                    weapon,
                    character_branch,
                    index_draw,
                ),
    {
        let character_branch = crate::rng::draw_inclusive(0, 1) == 0;
        let tag = if character_branch {
            if self.is_last_five_star_item_limited {
                standard
            } else {
                limited
            }
        } else {
            weapon
        };
        let bucket_len = self.items_of_type(tag).len();
        let index_draw: usize = if bucket_len == 0 {
            0
        } else {
            crate::rng::draw_index(bucket_len)
        };
        let result = self.pity_roll_with_draw(limited, standard, weapon, character_branch, index_draw);
        proof {
            assert(resolved_at(
                *old(self),
                *self,
                result,
                limited,
                standard,
                weapon,
                character_branch,
                index_draw as int,
            ));
        }
        result
    }

    /// One draw at known draws, exact in every branch; the index draw must
    /// fit the bucket the checks resolve to, unless that bucket is empty.
    pub fn roll_with_draws(
        &mut self,
        five_draw: i32,
        four_draw: i32,
        character_branch: bool,
        index_draw: usize,
    ) -> (result: Result<Item, GachaError>)
        requires
            old(self).five_star_pity_counter < i32::MAX,
            old(self).four_star_pity_counter < i32::MAX,
            ({
                let tag = rolled_tag(*old(self), five_draw as int, four_draw as int, character_branch);
                bucket_of(old(self).items@, tag).len() == 0 || index_draw < bucket_of(
                    old(self).items@,
                    tag,
                ).len()
            }),
        ensures
            roll_outcome(
                *old(self),
                *final(self),
                result,
                five_draw as int,
                four_draw as int,
                character_branch,
                index_draw as int,
            ),
    {
        let five_table = self.build_five_star_pity_chances();
        let four_table = self.build_four_star_pity_chances();

        // Check for a five- or four-star item draw
        if Self::chance_hit_with_draw(self.five_star_pity_counter, &five_table, five_draw) {
            self.five_star_pity_counter = 0;
            return self.pity_roll_with_draw(
                ItemType::FiveStarCharacterLimited,
                ItemType::FiveStarCharacterStandard,
                ItemType::FiveStarWeapon,
                character_branch,
                index_draw,
            );
        } else {
            self.five_star_pity_counter = self.five_star_pity_counter + 1;
        }

        if Self::chance_hit_with_draw(self.four_star_pity_counter, &four_table, four_draw) {
            self.four_star_pity_counter = 0;
            return self.pity_roll_with_draw(
                ItemType::FourStarCharacter,
                ItemType::FourStarWeapon,
                ItemType::FourStarCharacter,
                character_branch,
                index_draw,
            );
        } else {
            self.four_star_pity_counter = self.four_star_pity_counter + 1;
        }

        // Default to a three-star item at the index draw
        let bucket_len = self.items_of_type(ItemType::ThreeStarItem).len();
        if bucket_len == 0 {
            Err(GachaError::EmptyTier(ItemType::ThreeStarItem))
        } else {
            Ok(self.item_of_type_at(ItemType::ThreeStarItem, index_draw))
        }
    }

    /// One draw with fresh uniform draws: the five-star check first (a hit
    /// resets the five-star pity and skips the four-star check entirely for
    /// this draw), else the four-star check, else a uniform three-star
    /// item; each missed check raises its own pity counter by one.
    pub fn roll(&mut self) -> (result: Result<Item, GachaError>)
        requires
            0 <= old(self).five_star_pity_counter < i32::MAX,
            0 <= old(self).four_star_pity_counter < i32::MAX,
        ensures
            final(self).items@ == old(self).items@,
            final(self).five_star_pity_counter == 0 || final(self).five_star_pity_counter == old(
                self,
            ).five_star_pity_counter + 1,
            // a five-star hit leaves the four-star pity untouched
            final(self).five_star_pity_counter == 0 ==> final(self).four_star_pity_counter == old(
                self,
            ).four_star_pity_counter,
            final(self).five_star_pity_counter != 0 ==> final(self).four_star_pity_counter == 0
                || final(self).four_star_pity_counter == old(self).four_star_pity_counter + 1,
            // the four-star hard guarantee: when the five-star check missed
            // at four-star pity 10, the four-star check cannot miss
            old(self).four_star_pity_counter == 10 && final(self).five_star_pity_counter != 0
                ==> final(self).four_star_pity_counter == 0,
            result matches Ok(item) ==> old(self).items@.contains(item),
            result matches Err(e) ==> e matches GachaError::EmptyTier(_),
            catalog_complete(old(self).items@) ==> result is Ok,
            exists|five_draw: int, four_draw: int, character_branch: bool, index_draw: int|
                0 <= five_draw <= 1000 && 0 <= four_draw <= 1000 && 0 <= index_draw
                    && #[trigger] roll_outcome(
                    *old(self),
                    *final(self),
                    result,
                    five_draw,
                    four_draw,
                    character_branch,
                    index_draw,
                ),
    {
        let five_table = self.build_five_star_pity_chances();
        let four_table = self.build_four_star_pity_chances();
        let five_draw = crate::rng::draw_inclusive(0, 1000);
        let four_draw = crate::rng::draw_inclusive(0, 1000);
        let character_branch = crate::rng::draw_inclusive(0, 1) == 0;

        // size the index draw by the bucket the checks will resolve to
        let flag = self.is_last_five_star_item_limited;
        let tag = if Self::chance_hit_with_draw(self.five_star_pity_counter, &five_table, five_draw) {
            if character_branch {
                if flag {
                    ItemType::FiveStarCharacterStandard
                } else {
                    ItemType::FiveStarCharacterLimited
                }
            } else {
                ItemType::FiveStarWeapon
            }
        } else if Self::chance_hit_with_draw(self.four_star_pity_counter, &four_table, four_draw) {
            if character_branch {
                if flag {
                    ItemType::FourStarWeapon
                } else {
                    ItemType::FourStarCharacter
                }
            } else {
                ItemType::FourStarCharacter
            }
        } else {
            ItemType::ThreeStarItem
        };
        proof {
            assert(tag == rolled_tag(*self, five_draw as int, four_draw as int, character_branch));
        }
        let bucket_len = self.items_of_type(tag).len();
        let index_draw: usize = if bucket_len == 0 {
            0
        } else {
            crate::rng::draw_index(bucket_len)
        };
        let result = self.roll_with_draws(five_draw, four_draw, character_branch, index_draw);
        proof {
            assert(roll_outcome(
                *old(self),
                *self,
                result,
                five_draw as int,
                four_draw as int,
                character_branch,
                index_draw as int,
            ));
            if bucket_len > 0 {
                lemma_bucket_items(old(self).items@, tag, index_draw as int);
            }
            if catalog_complete(old(self).items@) {
                assert(bucket_of(old(self).items@, tag).len() > 0);
            }
        }
        result
    }

    /// Applies `roll` the given number of times, threading the session
    /// through each draw and collecting the items in draw order. Zero draws
    /// are rejected explicitly; the first empty-tier failure ends the run.
    #[verifier::loop_isolation(false)]
    pub fn multi_roll(&mut self, number_of_rolls: u32) -> (result: Result<Vec<Item>, GachaError>)
        requires
            0 <= old(self).five_star_pity_counter,
            0 <= old(self).four_star_pity_counter,
            old(self).five_star_pity_counter + number_of_rolls <= i32::MAX,
            old(self).four_star_pity_counter + number_of_rolls <= i32::MAX,
        ensures
            final(self).items@ == old(self).items@,
            number_of_rolls == 0 <==> result == Err::<Vec<Item>, GachaError>(
                GachaError::InvalidRollCount,
            ),
            result matches Ok(items) ==> items@.len() == number_of_rolls && forall|i: int|
                0 <= i < items@.len() ==> old(self).items@.contains(#[trigger] items@[i]),
            number_of_rolls > 0 ==> (result matches Err(e) ==> e matches GachaError::EmptyTier(_)),
            catalog_complete(old(self).items@) && number_of_rolls > 0 ==> result is Ok,
    {
        if number_of_rolls == 0 {
            return Err(GachaError::InvalidRollCount);
        }
        let ghost pre = *self;
        let mut roll_results: Vec<Item> = Vec::with_capacity(number_of_rolls as usize);
        let mut i: u32 = 0;
        while i < number_of_rolls
            invariant
                i <= number_of_rolls,
                self.items@ == pre.items@,
                0 <= self.five_star_pity_counter <= pre.five_star_pity_counter + i,
                0 <= self.four_star_pity_counter <= pre.four_star_pity_counter + i,
                pre.five_star_pity_counter + number_of_rolls <= i32::MAX,
                pre.four_star_pity_counter + number_of_rolls <= i32::MAX,
                0 <= pre.five_star_pity_counter,
                0 <= pre.four_star_pity_counter,
                roll_results@.len() == i,
                forall|j: int| 0 <= j < roll_results@.len() ==> pre.items@.contains(
                    #[trigger] roll_results@[j],
                ),
            decreases number_of_rolls - i,
        {
            match self.roll() {
                Ok(item) => {
                    roll_results.push(item);
                },
                Err(e) => {
                    return Err(e);
                },
            }
            i = i + 1;
        }
        Ok(roll_results)
    }

    /// The item type a catalog record's type string names, `None` where it
    /// names none of the six.
    pub fn tag_of_string(s: &String) -> (tag: Option<ItemType>)
        ensures
            tag == parsed_tag(s@),
    {
        if *s == "FiveStarCharacterLimited".to_owned() {
            Some(ItemType::FiveStarCharacterLimited)
        } else if *s == "FiveStarCharacterStandard".to_owned() {
            Some(ItemType::FiveStarCharacterStandard)
        } else if *s == "FiveStarWeapon".to_owned() {
            Some(ItemType::FiveStarWeapon)
        } else if *s == "FourStarCharacter".to_owned() {
            Some(ItemType::FourStarCharacter)
        } else if *s == "FourStarWeapon".to_owned() {
            Some(ItemType::FourStarWeapon)
        } else if *s == "ThreeStarItem".to_owned() {
            Some(ItemType::ThreeStarItem)
        } else {
            None
        }
    }

    /// Turns raw catalog records into items. Every record's type string must
    /// name one of the six item types; a single unrecognized string rejects
    /// the whole catalog, since the engine cannot run on a malformed one.
    #[verifier::loop_isolation(false)]
    pub fn items_from_records(records: Vec<ItemFromJson>) -> (result: Result<Vec<Item>, GachaError>)
        ensures
            result is Ok <==> (forall|i: int|
                0 <= i < records@.len() ==> #[trigger] parsed_tag(records@[i].item_type@) is Some),
            result matches Err(e) ==> e == GachaError::UnknownItemType,
            result matches Ok(items) ==> {
                &&& items@.len() == records@.len()
                &&& forall|i: int|
                    0 <= i < records@.len() ==> {
                        let record = #[trigger] records@[i];
                        let item = items@[i];
                        &&& item.name@ == record.name@
                        &&& Some(item.item_type) == parsed_tag(record.item_type@)
                        &&& item.description@ == record.description@
                        &&& item.image_url@ == record.image_url@
                    }
            },
    {
        let mut items: Vec<Item> = Vec::new();
        let mut i: usize = 0;
        while i < records.len()
            invariant
                i <= records@.len(),
                items@.len() == i,
                forall|j: int|
                    0 <= j < i ==> {
                        let record = #[trigger] records@[j];
                        let item = items@[j];
                        &&& parsed_tag(record.item_type@) is Some
                        &&& item.name@ == record.name@
                        &&& Some(item.item_type) == parsed_tag(record.item_type@)
                        &&& item.description@ == record.description@
                        &&& item.image_url@ == record.image_url@
                    },
            decreases records@.len() - i,
        {
            let record = &records[i];
            let tag = match Self::tag_of_string(&record.item_type) {
                Some(tag) => tag,
                None => {
                    proof {
                        assert(parsed_tag(records@[i as int].item_type@) is None);
                    }
                    return Err(GachaError::UnknownItemType);
                },
            };
            items.push(
                Item {
                    name: record.name.clone(),
                    item_type: tag,
                    description: record.description.clone(),
                    image_url: record.image_url.clone(),
                },
            );
            i = i + 1;
        }
        Ok(items)
    }
}

} // verus!

