//! The maps of the game world and the names they go by.

use vstd::prelude::*;
use vstd::string::*;

verus! {

/// A map of the game world, grouped by the realm it lies in.
#[derive(Clone, Copy, Debug, PartialEq, Eq, Structural)]
pub enum SkyMap {
    // Daylight Prairie.
    BirdNest,
    ButterflyFields,
    Cave,
    KoiPond,
    SanctuaryIslands,
    // Hidden Forest.
    Boneyard,
    ElevatedClearing,
    ForestBrook,
    ForestEnd,
    Treehouse,
    // Valley of Triumph.
    IceRink,
    HermitValley,
    VillageOfDreams,
    // Golden Wasteland.
    Battlefield,
    BrokenTemple,
    CrabFields,
    ForgottenArk,
    Graveyard,
    // Vault of Knowledge.
    JellyfishCove,
    StarlightDesert,
}

/// The lower-case letter of an upper-case ASCII letter, an underscore for a
/// space, and any other character unchanged.
pub open spec fn slug_char(c: char) -> char {
    if c == ' ' {
        '_'
    } else if 'A' <= c <= 'Z' {
        ((c as u8) + 32) as char
    } else {
        c
    }
}

/// The path form of a name: every character replaced by its `slug_char`.
pub open spec fn slugify(name: Seq<char>) -> Seq<char> {
    Seq::new(name.len(), |i: int| slug_char(name[i]))
}

impl SkyMap {
    /// The display name of the map.
    pub open spec fn name_spec(self) -> Seq<char> {
        match self {
            SkyMap::BirdNest => "Bird Nest"@,
            SkyMap::ButterflyFields => "Butterfly Fields"@,
            SkyMap::Cave => "Cave"@,
            SkyMap::KoiPond => "Koi Pond"@,
            SkyMap::SanctuaryIslands => "Sanctuary Islands"@,
            SkyMap::Boneyard => "Boneyard"@,
            SkyMap::ElevatedClearing => "Elevated Clearing"@,
            SkyMap::ForestBrook => "Forest Brook"@,
            SkyMap::ForestEnd => "Forest End"@,
            SkyMap::Treehouse => "Treehouse"@,
            SkyMap::IceRink => "Ice Rink"@,
            SkyMap::HermitValley => "Hermit Valley"@,
            SkyMap::VillageOfDreams => "Village of Dreams"@,
            SkyMap::Battlefield => "Battlefield"@,
            SkyMap::BrokenTemple => "Broken Temple"@,
            SkyMap::CrabFields => "Crab Fields"@,
            SkyMap::ForgottenArk => "Forgotten Ark"@,
            SkyMap::Graveyard => "Graveyard"@,
            SkyMap::JellyfishCove => "Jellyfish Cove"@,
            SkyMap::StarlightDesert => "Starlight Desert"@,
        }
    }

    /// The name of the map as it appears in asset paths.
    pub open spec fn slug_spec(self) -> Seq<char> {
        match self {
            SkyMap::BirdNest => "bird_nest"@,
            SkyMap::ButterflyFields => "butterfly_fields"@,
            SkyMap::Cave => "cave"@,
            SkyMap::KoiPond => "koi_pond"@,
            SkyMap::SanctuaryIslands => "sanctuary_islands"@,
            SkyMap::Boneyard => "boneyard"@,
            SkyMap::ElevatedClearing => "elevated_clearing"@,
            SkyMap::ForestBrook => "forest_brook"@,
            SkyMap::ForestEnd => "forest_end"@,
            SkyMap::Treehouse => "treehouse"@,
            SkyMap::IceRink => "ice_rink"@,
            SkyMap::HermitValley => "hermit_valley"@,
            SkyMap::VillageOfDreams => "village_of_dreams"@,
            SkyMap::Battlefield => "battlefield"@,
            SkyMap::BrokenTemple => "broken_temple"@,
            SkyMap::CrabFields => "crab_fields"@,
            SkyMap::ForgottenArk => "forgotten_ark"@,
            SkyMap::Graveyard => "graveyard"@,
            SkyMap::JellyfishCove => "jellyfish_cove"@,
            SkyMap::StarlightDesert => "starlight_desert"@,
        }
    }

    /// The display name of the map.
    pub fn name(&self) -> (s: &'static str)
        ensures
            s@ == self.name_spec(),
    {
        match self {
            SkyMap::BirdNest => "Bird Nest",
            SkyMap::ButterflyFields => "Butterfly Fields",
            SkyMap::Cave => "Cave",
            SkyMap::KoiPond => "Koi Pond",
            SkyMap::SanctuaryIslands => "Sanctuary Islands",
            SkyMap::Boneyard => "Boneyard",
            SkyMap::ElevatedClearing => "Elevated Clearing",
            SkyMap::ForestBrook => "Forest Brook",
            SkyMap::ForestEnd => "Forest End",
            SkyMap::Treehouse => "Treehouse",
            SkyMap::IceRink => "Ice Rink",
            SkyMap::HermitValley => "Hermit Valley",
            SkyMap::VillageOfDreams => "Village of Dreams",
            SkyMap::Battlefield => "Battlefield",
            SkyMap::BrokenTemple => "Broken Temple",
            SkyMap::CrabFields => "Crab Fields",
            SkyMap::ForgottenArk => "Forgotten Ark",
            SkyMap::Graveyard => "Graveyard",
            SkyMap::JellyfishCove => "Jellyfish Cove",
            SkyMap::StarlightDesert => "Starlight Desert",
        }
    }

    /// The display name of the map as an owned string.
    pub fn to_string(&self) -> (s: String)
        ensures
            s@ == self.name_spec(),
    {
        String::from_str(self.name())
    }

    /// The name of the map as it appears in asset paths.
    pub fn slug(&self) -> (s: &'static str)
        ensures
            s@ == self.slug_spec(),
    {
        match self {
            SkyMap::BirdNest => "bird_nest",
            SkyMap::ButterflyFields => "butterfly_fields",
            SkyMap::Cave => "cave",
            SkyMap::KoiPond => "koi_pond",
            SkyMap::SanctuaryIslands => "sanctuary_islands",
            SkyMap::Boneyard => "boneyard",
            SkyMap::ElevatedClearing => "elevated_clearing",
            SkyMap::ForestBrook => "forest_brook",
            SkyMap::ForestEnd => "forest_end",
            SkyMap::Treehouse => "treehouse",
            SkyMap::IceRink => "ice_rink",
            SkyMap::HermitValley => "hermit_valley",
            SkyMap::VillageOfDreams => "village_of_dreams",
            SkyMap::Battlefield => "battlefield",
            SkyMap::BrokenTemple => "broken_temple",
            SkyMap::CrabFields => "crab_fields",
            SkyMap::ForgottenArk => "forgotten_ark",
            SkyMap::Graveyard => "graveyard",
            SkyMap::JellyfishCove => "jellyfish_cove",
            SkyMap::StarlightDesert => "starlight_desert",
        }
    }

    /// The asset-path name of every map is its display name in lower case
    /// with underscores for spaces.
    pub proof fn lemma_slug_is_slugified_name(self)
        ensures
            self.slug_spec() == slugify(self.name_spec()),
    {
        match self {
            SkyMap::BirdNest => {
                reveal_strlit("Bird Nest");
                reveal_strlit("bird_nest");
                assert("bird_nest"@ =~= slugify("Bird Nest"@));
            },
            SkyMap::ButterflyFields => {
                reveal_strlit("Butterfly Fields");
                reveal_strlit("butterfly_fields");
                assert("butterfly_fields"@ =~= slugify("Butterfly Fields"@));
            },
            SkyMap::Cave => {
                reveal_strlit("Cave");
                reveal_strlit("cave");
                assert("cave"@ =~= slugify("Cave"@));
            },
            SkyMap::KoiPond => {
                reveal_strlit("Koi Pond");
                reveal_strlit("koi_pond");
                assert("koi_pond"@ =~= slugify("Koi Pond"@));
            },
            SkyMap::SanctuaryIslands => {
                reveal_strlit("Sanctuary Islands");
                reveal_strlit("sanctuary_islands");
                assert("sanctuary_islands"@ =~= slugify("Sanctuary Islands"@));
            },
            SkyMap::Boneyard => {
                reveal_strlit("Boneyard");
                reveal_strlit("boneyard");
                assert("boneyard"@ =~= slugify("Boneyard"@));
            },
            SkyMap::ElevatedClearing => {
                reveal_strlit("Elevated Clearing");
                reveal_strlit("elevated_clearing");
                assert("elevated_clearing"@ =~= slugify("Elevated Clearing"@));
            },
            SkyMap::ForestBrook => {
                reveal_strlit("Forest Brook");
                reveal_strlit("forest_brook");
                assert("forest_brook"@ =~= slugify("Forest Brook"@));
            },
            SkyMap::ForestEnd => {
                reveal_strlit("Forest End");
                reveal_strlit("forest_end");
                assert("forest_end"@ =~= slugify("Forest End"@));
            },
            SkyMap::Treehouse => {
                reveal_strlit("Treehouse");
                reveal_strlit("treehouse");
                assert("treehouse"@ =~= slugify("Treehouse"@));
            },
            SkyMap::IceRink => {
                reveal_strlit("Ice Rink");
                reveal_strlit("ice_rink");
                assert("ice_rink"@ =~= slugify("Ice Rink"@));
            },
            SkyMap::HermitValley => {
                reveal_strlit("Hermit Valley");
                reveal_strlit("hermit_valley");
                assert("hermit_valley"@ =~= slugify("Hermit Valley"@));
            },
            SkyMap::VillageOfDreams => {
                reveal_strlit("Village of Dreams");
                reveal_strlit("village_of_dreams");
                assert("village_of_dreams"@ =~= slugify("Village of Dreams"@));
            },
            SkyMap::Battlefield => {
                reveal_strlit("Battlefield");
                reveal_strlit("battlefield");
                assert("battlefield"@ =~= slugify("Battlefield"@));
            },
            SkyMap::BrokenTemple => {
                reveal_strlit("Broken Temple");
                reveal_strlit("broken_temple");
                assert("broken_temple"@ =~= slugify("Broken Temple"@));
            },
            SkyMap::CrabFields => {
                reveal_strlit("Crab Fields");
                reveal_strlit("crab_fields");
                assert("crab_fields"@ =~= slugify("Crab Fields"@));
            },
            SkyMap::ForgottenArk => {
                reveal_strlit("Forgotten Ark");
                reveal_strlit("forgotten_ark");
                assert("forgotten_ark"@ =~= slugify("Forgotten Ark"@));
            },
            SkyMap::Graveyard => {
                reveal_strlit("Graveyard");
                reveal_strlit("graveyard");
                assert("graveyard"@ =~= slugify("Graveyard"@));
            },
            SkyMap::JellyfishCove => {
                reveal_strlit("Jellyfish Cove");
                reveal_strlit("jellyfish_cove");
                assert("jellyfish_cove"@ =~= slugify("Jellyfish Cove"@));
            },
            SkyMap::StarlightDesert => {
                reveal_strlit("Starlight Desert");
                reveal_strlit("starlight_desert");
                assert("starlight_desert"@ =~= slugify("Starlight Desert"@));
            },
        }
    }
}

} // verus!
