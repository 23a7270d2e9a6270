//! The block registry: a cube model (six face textures, an optional overlay, and
//! transparency) for each known block state id, over a fixed list of texture names.
//!
//! Textures are referred to by their index in the texture list; the comment beside each
//! entry names them.

use vstd::prelude::*;
use std::collections::HashMap;

verus! {

broadcast use vstd::std_specs::hash::group_hash_axioms;

#[derive(Clone, Copy, Debug, PartialEq, Eq, Structural)]
pub struct BlockFace {
    pub texture: usize,
}

#[derive(Clone, Copy, Debug, PartialEq, Eq, Structural)]
pub struct OverlayFace {
    pub texture: usize,
    pub side_only: bool,
}

#[derive(Clone, Copy, Debug)]
pub struct BlockModel {
    pub faces: [BlockFace; 6],
    pub overlay: Option<OverlayFace>,
    pub transparent: bool,
}

pub const DOWN: usize = 0;
pub const UP: usize = 1;
pub const NORTH: usize = 2;
pub const SOUTH: usize = 3;
pub const WEST: usize = 4;
pub const EAST: usize = 5;

/// A model with the same texture on all six faces.
pub open spec fn spec_cube_all(tex: usize) -> BlockModel {
    BlockModel {
        faces: [
            BlockFace { texture: tex },
            BlockFace { texture: tex },
            BlockFace { texture: tex },
            BlockFace { texture: tex },
            BlockFace { texture: tex },
            BlockFace { texture: tex },
        ],
        overlay: None,
        transparent: false,
    }
}

/// A model with its own bottom and top textures and one texture on the four sides.
pub open spec fn spec_cube_bottom_top(bottom: usize, top: usize, side: usize) -> BlockModel {
    BlockModel {
        faces: [
            BlockFace { texture: bottom },
            BlockFace { texture: top },
            BlockFace { texture: side },
            BlockFace { texture: side },
            BlockFace { texture: side },
            BlockFace { texture: side },
        ],
        overlay: None,
        transparent: false,
    }
}

/// A model with one texture on both ends and one on the four sides.
pub open spec fn spec_cube_column(end: usize, side: usize) -> BlockModel {
    spec_cube_bottom_top(end, end, side)
}

/// The transparent model with the placeholder texture on every face.
pub open spec fn spec_glass() -> BlockModel {
    BlockModel { transparent: true, ..spec_cube_all(0) }
}

fn cube_all(tex: usize) -> (r: BlockModel)
    ensures
        r == spec_cube_all(tex),
{
    BlockModel {
        faces: [
            BlockFace { texture: tex },
            BlockFace { texture: tex },
            BlockFace { texture: tex },
            BlockFace { texture: tex },
            BlockFace { texture: tex },
            BlockFace { texture: tex },
        ],
        overlay: None,
        transparent: false,
    }
}

fn cube_bottom_top(bottom: usize, top: usize, side: usize) -> (r: BlockModel)
    ensures
        r == spec_cube_bottom_top(bottom, top, side),
{
    BlockModel {
        faces: [
            BlockFace { texture: bottom },  // down
            BlockFace { texture: top },  // up
            BlockFace { texture: side },  // north
            BlockFace { texture: side },  // south
            BlockFace { texture: side },  // west
            BlockFace { texture: side },  // east
        ],
        overlay: None,
        transparent: false,
    }
}

fn cube_column(end: usize, side: usize) -> (r: BlockModel)
    ensures
        r == spec_cube_column(end, side),
{
    BlockModel {
        faces: [
            BlockFace { texture: end },  // down
            BlockFace { texture: end },  // up
            BlockFace { texture: side },  // north
            BlockFace { texture: side },  // south
            BlockFace { texture: side },  // west
            BlockFace { texture: side },  // east
        ],
        overlay: None,
        transparent: false,
    }
}

fn glass() -> (r: BlockModel)
    ensures
        r == spec_glass(),
{
    let mut m = cube_all(0);
    m.transparent = true;
    m
}

/// The texture names of the registry, in order; index 0 is the empty placeholder.
pub open spec fn default_textures() -> Seq<&'static str> {
    seq![
        "",
        "block/stone",
        "block/granite",
        "block/polished_granite",
        "block/diorite",
        "block/polished_diorite",
        "block/andesite",
        "block/polished_andesite",
        "block/cobblestone",
        "block/bedrock",
        "block/stone_bricks",
        "block/bricks",
        "block/obsidian",
        "block/dirt",
        "block/coarse_dirt",
        "block/grass_block_top",
        "block/grass_block_side",
        "block/grass_block_side_overlay",
        "block/podzol_top",
        "block/podzol_side",
        "block/sand",
        "block/red_sand",
        "block/gravel",
        "block/clay",
        "block/moss_block",
        "block/snow",
        "block/mycelium_top",
        "block/mycelium_side",
        "block/oak_planks",
        "block/spruce_planks",
        "block/birch_planks",
        "block/jungle_planks",
        "block/acacia_planks",
        "block/cherry_planks",
        "block/dark_oak_planks",
        "block/pale_oak_planks",
        "block/mangrove_planks",
        "block/bamboo_planks",
        "block/bamboo_mosaic",
        "block/oak_log_top",
        "block/oak_log",
        "block/spruce_log_top",
        "block/spruce_log",
        "block/birch_log_top",
        "block/birch_log",
        "block/jungle_log_top",
        "block/jungle_log",
        "block/acacia_log_top",
        "block/acacia_log",
        "block/cherry_log_top",
        "block/cherry_log",
        "block/dark_oak_log_top",
        "block/dark_oak_log",
        "block/mangrove_log_top",
        "block/mangrove_log",
        "block/pale_oak_log_top",
        "block/pale_oak_log",
        "block/stripped_oak_log_top",
        "block/stripped_oak_log",
        "block/stripped_spruce_log_top",
        "block/stripped_spruce_log",
        "block/oak_leaves",
        "block/spruce_leaves",
        "block/birch_leaves",
        "block/coal_ore",
        "block/iron_ore",
        "block/gold_ore",
        "block/nether_gold_ore",
        "block/copper_ore",
        "block/lapis_ore",
        "block/redstone_ore",
        "block/diamond_ore",
        "block/emerald_ore",
        "block/coal_block",
        "block/iron_block",
        "block/gold_block",
        "block/diamond_block",
        "block/emerald_block",
        "block/lapis_block",
        "block/redstone_block",
        "block/netherite_block",
        "block/copper_block",
        "block/deepslate_top",
        "block/deepslate",
        "block/cobbled_deepslate",
        "block/deepslate_coal_ore",
        "block/deepslate_iron_ore",
        "block/deepslate_copper_ore",
        "block/deepslate_gold_ore",
        "block/deepslate_diamond_ore",
        "block/deepslate_emerald_ore",
        "block/deepslate_redstone_ore",
        "block/deepslate_lapis_ore",
        "block/tuff",
        "block/calcite",
        "block/dripstone_block",
        "block/mossy_cobblestone",
        "block/netherrack",
        "block/soul_sand",
        "block/magma",
        "block/sandstone_top",
        "block/sandstone_bottom",
        "block/sandstone",
        "block/red_sandstone_top",
        "block/red_sandstone_bottom",
        "block/red_sandstone",
        "block/ice",
        "block/packed_ice",
        "block/blue_ice",
        "block/bookshelf",
        "block/crafting_table_top",
        "block/crafting_table_front",
        "block/crafting_table_side",
        "block/furnace_top",
        "block/furnace_front",
        "block/furnace_side",
        "block/terracotta",
        "block/white_terracotta",
        "block/sponge",
        "block/glass",
        "block/water_still",
        "block/lava_still",
        "block/bone_block_side",
        "block/bone_block_top",
        "block/white_wool",
        "block/orange_wool",
        "block/magenta_wool",
        "block/light_blue_wool",
        "block/yellow_wool",
        "block/lime_wool",
        "block/pink_wool",
        "block/gray_wool",
        "block/light_gray_wool",
        "block/cyan_wool",
        "block/purple_wool",
        "block/blue_wool",
        "block/brown_wool",
        "block/green_wool",
        "block/red_wool",
        "block/black_wool",
        "block/orange_terracotta",
        "block/magenta_terracotta",
        "block/light_blue_terracotta",
        "block/yellow_terracotta",
        "block/lime_terracotta",
        "block/pink_terracotta",
        "block/gray_terracotta",
        "block/light_gray_terracotta",
        "block/cyan_terracotta",
        "block/purple_terracotta",
        "block/blue_terracotta",
        "block/brown_terracotta",
        "block/green_terracotta",
        "block/red_terracotta",
        "block/black_terracotta",
        "block/mud",
    ]
}

/// The model of each known block state id.
pub open spec fn default_block_models() -> Map<u16, BlockModel> {
    map![
        1u16 => spec_cube_all(1),
        2u16 => spec_cube_all(2),
        3u16 => spec_cube_all(3),
        4u16 => spec_cube_all(4),
        5u16 => spec_cube_all(5),
        6u16 => spec_cube_all(6),
        7u16 => spec_cube_all(7),
        14u16 => spec_cube_all(8),
        85u16 => spec_cube_all(9),
        6780u16 => spec_cube_all(10),
        2139u16 => spec_cube_all(11),
        2400u16 => spec_cube_all(12),
        2399u16 => spec_cube_all(96),
        9u16 => BlockModel { faces: [BlockFace { texture: 13 }, BlockFace { texture: 15 }, BlockFace { texture: 16 }, BlockFace { texture: 16 }, BlockFace { texture: 16 }, BlockFace { texture: 16 }], overlay: Some(OverlayFace { texture: 17, side_only: true }), transparent: false },
        10u16 => spec_cube_all(13),
        11u16 => spec_cube_all(14),
        12u16 => spec_cube_bottom_top(13, 18, 19),
        13u16 => spec_cube_bottom_top(13, 18, 19),
        118u16 => spec_cube_all(20),
        123u16 => spec_cube_all(21),
        124u16 => spec_cube_all(22),
        5977u16 => spec_cube_all(23),
        25903u16 => spec_cube_all(24),
        11633u16 => spec_cube_all(116),
        10165u16 => spec_cube_all(117),
        5958u16 => spec_cube_all(106),
        11635u16 => spec_cube_all(107),
        13964u16 => spec_cube_all(108),
        5959u16 => spec_cube_all(25),
        15u16 => spec_cube_all(28),
        16u16 => spec_cube_all(29),
        17u16 => spec_cube_all(30),
        18u16 => spec_cube_all(31),
        19u16 => spec_cube_all(32),
        20u16 => spec_cube_all(33),
        21u16 => spec_cube_all(34),
        25u16 => spec_cube_all(35),
        26u16 => spec_cube_all(36),
        27u16 => spec_cube_all(37),
        28u16 => spec_cube_all(38),
        136u16 => spec_cube_column(39, 40),
        137u16 => spec_cube_column(39, 40),
        138u16 => spec_cube_column(39, 40),
        139u16 => spec_cube_column(41, 42),
        140u16 => spec_cube_column(41, 42),
        141u16 => spec_cube_column(41, 42),
        142u16 => spec_cube_column(43, 44),
        143u16 => spec_cube_column(43, 44),
        144u16 => spec_cube_column(43, 44),
        145u16 => spec_cube_column(45, 46),
        146u16 => spec_cube_column(45, 46),
        147u16 => spec_cube_column(45, 46),
        148u16 => spec_cube_column(47, 48),
        149u16 => spec_cube_column(47, 48),
        150u16 => spec_cube_column(47, 48),
        151u16 => spec_cube_column(49, 50),
        152u16 => spec_cube_column(49, 50),
        153u16 => spec_cube_column(49, 50),
        154u16 => spec_cube_column(51, 52),
        155u16 => spec_cube_column(51, 52),
        156u16 => spec_cube_column(51, 52),
        157u16 => spec_cube_column(55, 56),
        158u16 => spec_cube_column(55, 56),
        159u16 => spec_cube_column(55, 56),
        160u16 => spec_cube_column(53, 54),
        161u16 => spec_cube_column(53, 54),
        162u16 => spec_cube_column(53, 54),
        192u16 => spec_cube_column(57, 58),
        193u16 => spec_cube_column(57, 58),
        194u16 => spec_cube_column(57, 58),
        171u16 => spec_cube_column(59, 60),
        172u16 => spec_cube_column(59, 60),
        173u16 => spec_cube_column(59, 60),
        278u16 => spec_glass(),
        306u16 => spec_glass(),
        334u16 => spec_glass(),
        362u16 => spec_glass(),
        390u16 => spec_glass(),
        418u16 => spec_glass(),
        446u16 => spec_glass(),
        502u16 => spec_glass(),
        129u16 => spec_cube_all(66),
        130u16 => spec_cube_bottom_top(82, 82, 88),
        131u16 => spec_cube_all(65),
        132u16 => spec_cube_bottom_top(82, 82, 86),
        133u16 => spec_cube_all(64),
        134u16 => spec_cube_bottom_top(82, 82, 85),
        135u16 => spec_cube_all(67),
        23970u16 => spec_cube_all(68),
        22109u16 => spec_cube_all(93),
        23344u16 => spec_cube_all(94),
        25796u16 => spec_cube_all(95),
        25967u16 => spec_cube_all(84),
        6028u16 => spec_cube_all(97),
        6029u16 => spec_cube_all(98),
        13566u16 => spec_cube_all(99),
        2137u16 => spec_cube_all(75),
        2138u16 => spec_cube_all(74),
        4340u16 => spec_cube_all(76),
        8449u16 => spec_cube_all(77),
        565u16 => spec_cube_all(78),
        11634u16 => spec_cube_all(73),
        20475u16 => spec_cube_all(80),
        578u16 => spec_cube_bottom_top(101, 100, 102),
        579u16 => spec_cube_bottom_top(101, 100, 102),
        580u16 => spec_cube_bottom_top(101, 100, 102),
        2093u16 => spec_cube_all(124),
        2094u16 => spec_cube_all(125),
        2095u16 => spec_cube_all(126),
        2096u16 => spec_cube_all(127),
        2097u16 => spec_cube_all(128),
        2098u16 => spec_cube_all(129),
        2099u16 => spec_cube_all(130),
        2100u16 => spec_cube_all(131),
        2101u16 => spec_cube_all(132),
        2102u16 => spec_cube_all(133),
        2103u16 => spec_cube_all(134),
        2104u16 => spec_cube_all(135),
        2105u16 => spec_cube_all(136),
        2106u16 => spec_cube_all(137),
        2107u16 => spec_cube_all(138),
        2108u16 => spec_cube_all(139),
        560u16 => spec_cube_all(118),
        562u16 => spec_cube_all(119),
        2142u16 => spec_cube_bottom_top(28, 28, 109),
        4341u16 => BlockModel { faces: [BlockFace { texture: 28 }, BlockFace { texture: 110 }, BlockFace { texture: 111 }, BlockFace { texture: 112 }, BlockFace { texture: 112 }, BlockFace { texture: 111 }], overlay: None, transparent: false },
    ]
}

#[derive(Clone)]
pub struct BlockRegistry {
    pub models: Vec<BlockModel>,
    pub id_to_index: HashMap<u16, usize>,
    pub textures: Vec<&'static str>,
}

/// Every index held by `index` points into `models`.
pub open spec fn indices_valid(models: Seq<BlockModel>, index: Map<u16, usize>) -> bool {
    forall|k: u16| #[trigger] index.contains_key(k) ==> index[k] < models.len()
}

/// The model that `index` and `models` give each id.
pub open spec fn registry_view(models: Seq<BlockModel>, index: Map<u16, usize>) -> Map<u16, BlockModel> {
    Map::new(|k: u16| index.contains_key(k), |k: u16| models[index[k] as int])
}

/// `index` is one to one, and every position below `n` is the index of some id.
#[verifier::opaque]
pub open spec fn index_bijective(n: nat, index: Map<u16, usize>) -> bool {
    &&& forall|k1: u16, k2: u16|
        #![trigger index[k1], index[k2]]
        index.contains_key(k1) && index.contains_key(k2) && index[k1] == index[k2] ==> k1 == k2
    &&& forall|i: int| 0 <= i < n ==> #[trigger] index_hits(index, i)
}

/// Some id of `index` is mapped to `i`.
pub open spec fn index_hits(index: Map<u16, usize>, i: int) -> bool {
    exists|k: u16| #[trigger] index.contains_key(k) && index[k] == i
}

/// Adds `model` for the new id `id`: it goes at the end of `models`, and `id` is pointed
/// at it.
fn register(models: &mut Vec<BlockModel>, id_to_index: &mut HashMap<u16, usize>, id: u16, model: BlockModel)
    requires
        indices_valid(old(models)@, old(id_to_index)@),
        index_bijective(old(models)@.len(), old(id_to_index)@),
        !old(id_to_index)@.contains_key(id),
    ensures
        final(models)@.len() == old(models)@.len() + 1,
        final(id_to_index)@ == old(id_to_index)@.insert(id, old(models)@.len() as usize),
        indices_valid(final(models)@, final(id_to_index)@),
        index_bijective(final(models)@.len(), final(id_to_index)@),
        registry_view(final(models)@, final(id_to_index)@) == registry_view(
            old(models)@,
            old(id_to_index)@,
        ).insert(id, model),
{
    reveal(index_bijective);
    let idx = models.len();
    models.push(model);
    id_to_index.insert(id, idx);
    assert forall|i: int| 0 <= i < models@.len() implies #[trigger] index_hits(id_to_index@, i) by {
        if i == idx {
            assert(id_to_index@.contains_key(id) && id_to_index@[id] == i);
        } else {
            assert(index_hits(old(id_to_index)@, i));
            let k = choose|k: u16| #[trigger] old(id_to_index)@.contains_key(k) && old(id_to_index)@[k] == i;
            assert(id_to_index@.contains_key(k) && id_to_index@[k] == i);
        }
    }
    assert(registry_view(models@, id_to_index@) =~= registry_view(
        old(models)@,
        old(id_to_index)@,
    ).insert(id, model));
}

/// Whether `k` is among the first group of ids that `BlockRegistry::new` registers.
spec fn registered_group_0(k: u16) -> bool {
    k == 1 || k == 2 || k == 3 || k == 4 || k == 5 || k == 6 || k == 7 || k == 14 ||
        k == 85 || k == 6780 || k == 2139 || k == 2400 || k == 2399 || k == 9 || k == 10 ||
        k == 11 || k == 12 || k == 13 || k == 118 || k == 123 || k == 124 || k == 5977 ||
        k == 25903 || k == 11633 || k == 10165 || k == 5958
}

/// Whether `k` is among the second group of ids that `BlockRegistry::new` registers.
spec fn registered_group_1(k: u16) -> bool {
    k == 11635 || k == 13964 || k == 5959 || k == 15 || k == 16 || k == 17 || k == 18 ||
        k == 19 || k == 20 || k == 21 || k == 25 || k == 26 || k == 27 || k == 28 ||
        k == 136 || k == 137 || k == 138 || k == 139 || k == 140 || k == 141 || k == 142 ||
        k == 143 || k == 144 || k == 145 || k == 146 || k == 147
}

/// Whether `k` is among the third group of ids that `BlockRegistry::new` registers.
spec fn registered_group_2(k: u16) -> bool {
    k == 148 || k == 149 || k == 150 || k == 151 || k == 152 || k == 153 || k == 154 ||
        k == 155 || k == 156 || k == 157 || k == 158 || k == 159 || k == 160 || k == 161 ||
        k == 162 || k == 192 || k == 193 || k == 194 || k == 171 || k == 172 || k == 173 ||
        k == 278 || k == 306 || k == 334 || k == 362 || k == 390
}

/// Whether `k` is among the fourth group of ids that `BlockRegistry::new` registers.
spec fn registered_group_3(k: u16) -> bool {
    k == 418 || k == 446 || k == 502 || k == 129 || k == 130 || k == 131 || k == 132 ||
        k == 133 || k == 134 || k == 135 || k == 23970 || k == 22109 || k == 23344 ||
        k == 25796 || k == 25967 || k == 6028 || k == 6029 || k == 13566 || k == 2137 ||
        k == 2138 || k == 4340 || k == 8449 || k == 565 || k == 11634 || k == 20475 ||
        k == 578
}

impl BlockRegistry {
    /// Every index of the id map points at a model.
    pub open spec fn wf(&self) -> bool {
        indices_valid(self.models@, self.id_to_index@)
    }

    /// The model of each registered id.
    pub open spec fn view_models(&self) -> Map<u16, BlockModel> {
        registry_view(self.models@, self.id_to_index@)
    }

    /// The registry of the default blocks: texture list `default_textures()` and the
    /// models `default_block_models()`.
    #[verifier::rlimit(100)]
    pub fn new() -> (r: Self)
        ensures
            r.wf(),
            r.models@.len() == 126,
            index_bijective(r.models@.len(), r.id_to_index@),
            r.view_models() == default_block_models(),
            r.textures@ == default_textures(),
    {
        let textures: Vec<&'static str> = vec![
            "",
            "block/stone",
            "block/granite",
            "block/polished_granite",
            "block/diorite",
            "block/polished_diorite",
            "block/andesite",
            "block/polished_andesite",
            "block/cobblestone",
            "block/bedrock",
            "block/stone_bricks",
            "block/bricks",
            "block/obsidian",
            "block/dirt",
            "block/coarse_dirt",
            "block/grass_block_top",
            "block/grass_block_side",
            "block/grass_block_side_overlay",
            "block/podzol_top",
            "block/podzol_side",
            "block/sand",
            "block/red_sand",
            "block/gravel",
            "block/clay",
            "block/moss_block",
            "block/snow",
            "block/mycelium_top",
            "block/mycelium_side",
            "block/oak_planks",
            "block/spruce_planks",
            "block/birch_planks",
            "block/jungle_planks",
            "block/acacia_planks",
            "block/cherry_planks",
            "block/dark_oak_planks",
            "block/pale_oak_planks",
            "block/mangrove_planks",
            "block/bamboo_planks",
            "block/bamboo_mosaic",
            "block/oak_log_top",
            "block/oak_log",
            "block/spruce_log_top",
            "block/spruce_log",
            "block/birch_log_top",
            "block/birch_log",
            "block/jungle_log_top",
            "block/jungle_log",
            "block/acacia_log_top",
            "block/acacia_log",
            "block/cherry_log_top",
            "block/cherry_log",
            "block/dark_oak_log_top",
            "block/dark_oak_log",
            "block/mangrove_log_top",
            "block/mangrove_log",
            "block/pale_oak_log_top",
            "block/pale_oak_log",
            "block/stripped_oak_log_top",
            "block/stripped_oak_log",
            "block/stripped_spruce_log_top",
            "block/stripped_spruce_log",
            "block/oak_leaves",
            "block/spruce_leaves",
            "block/birch_leaves",
            "block/coal_ore",
            "block/iron_ore",
            "block/gold_ore",
            "block/nether_gold_ore",
            "block/copper_ore",
            "block/lapis_ore",
            "block/redstone_ore",
            "block/diamond_ore",
            "block/emerald_ore",
            "block/coal_block",
            "block/iron_block",
            "block/gold_block",
            "block/diamond_block",
            "block/emerald_block",
            "block/lapis_block",
            "block/redstone_block",
            "block/netherite_block",
            "block/copper_block",
            "block/deepslate_top",
            "block/deepslate",
            "block/cobbled_deepslate",
            "block/deepslate_coal_ore",
            "block/deepslate_iron_ore",
            "block/deepslate_copper_ore",
            "block/deepslate_gold_ore",
            "block/deepslate_diamond_ore",
            "block/deepslate_emerald_ore",
            "block/deepslate_redstone_ore",
            "block/deepslate_lapis_ore",
            "block/tuff",
            "block/calcite",
            "block/dripstone_block",
            "block/mossy_cobblestone",
            "block/netherrack",
            "block/soul_sand",
            "block/magma",
            "block/sandstone_top",
            "block/sandstone_bottom",
            "block/sandstone",
            "block/red_sandstone_top",
            "block/red_sandstone_bottom",
            "block/red_sandstone",
            "block/ice",
            "block/packed_ice",
            "block/blue_ice",
            "block/bookshelf",
            "block/crafting_table_top",
            "block/crafting_table_front",
            "block/crafting_table_side",
            "block/furnace_top",
            "block/furnace_front",
            "block/furnace_side",
            "block/terracotta",
            "block/white_terracotta",
            "block/sponge",
            "block/glass",
            "block/water_still",
            "block/lava_still",
            "block/bone_block_side",
            "block/bone_block_top",
            "block/white_wool",
            "block/orange_wool",
            "block/magenta_wool",
            "block/light_blue_wool",
            "block/yellow_wool",
            "block/lime_wool",
            "block/pink_wool",
            "block/gray_wool",
            "block/light_gray_wool",
            "block/cyan_wool",
            "block/purple_wool",
            "block/blue_wool",
            "block/brown_wool",
            "block/green_wool",
            "block/red_wool",
            "block/black_wool",
            "block/orange_terracotta",
            "block/magenta_terracotta",
            "block/light_blue_terracotta",
            "block/yellow_terracotta",
            "block/lime_terracotta",
            "block/pink_terracotta",
            "block/gray_terracotta",
            "block/light_gray_terracotta",
            "block/cyan_terracotta",
            "block/purple_terracotta",
            "block/blue_terracotta",
            "block/brown_terracotta",
            "block/green_terracotta",
            "block/red_terracotta",
            "block/black_terracotta",
            "block/mud",
        ];

        let mut id_to_index: HashMap<u16, usize> = HashMap::new();
        let mut models: Vec<BlockModel> = Vec::new();
        assert(registry_view(models@, id_to_index@) =~= Map::<u16, BlockModel>::empty());
        assert(index_bijective(0, id_to_index@)) by {
            reveal(index_bijective);
        }

        register(&mut models, &mut id_to_index, 1, cube_all(1));  // block/stone
        register(&mut models, &mut id_to_index, 2, cube_all(2));  // block/granite
        register(&mut models, &mut id_to_index, 3, cube_all(3));  // block/polished_granite
        register(&mut models, &mut id_to_index, 4, cube_all(4));  // block/diorite
        register(&mut models, &mut id_to_index, 5, cube_all(5));  // block/polished_diorite
        register(&mut models, &mut id_to_index, 6, cube_all(6));  // block/andesite
        register(&mut models, &mut id_to_index, 7, cube_all(7));  // block/polished_andesite
        register(&mut models, &mut id_to_index, 14, cube_all(8));  // block/cobblestone
        register(&mut models, &mut id_to_index, 85, cube_all(9));  // block/bedrock
        register(&mut models, &mut id_to_index, 6780, cube_all(10));  // block/stone_bricks
        register(&mut models, &mut id_to_index, 2139, cube_all(11));  // block/bricks
        register(&mut models, &mut id_to_index, 2400, cube_all(12));  // block/obsidian
        register(&mut models, &mut id_to_index, 2399, cube_all(96));  // block/mossy_cobblestone
        register(&mut models, &mut id_to_index, 9, BlockModel { faces: [BlockFace { texture: 13 }, BlockFace { texture: 15 }, BlockFace { texture: 16 }, BlockFace { texture: 16 }, BlockFace { texture: 16 }, BlockFace { texture: 16 }], overlay: Some(OverlayFace { texture: 17, side_only: true }), transparent: false });  // block/dirt, block/grass_block_top, block/grass_block_side, block/grass_block_side_overlay
        register(&mut models, &mut id_to_index, 10, cube_all(13));  // block/dirt
        register(&mut models, &mut id_to_index, 11, cube_all(14));  // block/coarse_dirt
        register(&mut models, &mut id_to_index, 12, cube_bottom_top(13, 18, 19));  // block/dirt, block/podzol_top, block/podzol_side
        register(&mut models, &mut id_to_index, 13, cube_bottom_top(13, 18, 19));  // block/dirt, block/podzol_top, block/podzol_side
        register(&mut models, &mut id_to_index, 118, cube_all(20));  // block/sand
        register(&mut models, &mut id_to_index, 123, cube_all(21));  // block/red_sand
        register(&mut models, &mut id_to_index, 124, cube_all(22));  // block/gravel
        register(&mut models, &mut id_to_index, 5977, cube_all(23));  // block/clay
        register(&mut models, &mut id_to_index, 25903, cube_all(24));  // block/moss_block
        register(&mut models, &mut id_to_index, 11633, cube_all(116));  // block/terracotta
        register(&mut models, &mut id_to_index, 10165, cube_all(117));  // block/white_terracotta
        register(&mut models, &mut id_to_index, 5958, cube_all(106));  // block/ice
        assert(forall|k: u16|
            #[trigger] id_to_index@.contains_key(k) <==> (registered_group_0(k)));
        register(&mut models, &mut id_to_index, 11635, cube_all(107));  // block/packed_ice
        register(&mut models, &mut id_to_index, 13964, cube_all(108));  // block/blue_ice
        register(&mut models, &mut id_to_index, 5959, cube_all(25));  // block/snow
        register(&mut models, &mut id_to_index, 15, cube_all(28));  // block/oak_planks
        register(&mut models, &mut id_to_index, 16, cube_all(29));  // block/spruce_planks
        register(&mut models, &mut id_to_index, 17, cube_all(30));  // block/birch_planks
        register(&mut models, &mut id_to_index, 18, cube_all(31));  // block/jungle_planks
        register(&mut models, &mut id_to_index, 19, cube_all(32));  // block/acacia_planks
        register(&mut models, &mut id_to_index, 20, cube_all(33));  // block/cherry_planks
        register(&mut models, &mut id_to_index, 21, cube_all(34));  // block/dark_oak_planks
        register(&mut models, &mut id_to_index, 25, cube_all(35));  // block/pale_oak_planks
        register(&mut models, &mut id_to_index, 26, cube_all(36));  // block/mangrove_planks
        register(&mut models, &mut id_to_index, 27, cube_all(37));  // block/bamboo_planks
        register(&mut models, &mut id_to_index, 28, cube_all(38));  // block/bamboo_mosaic
        register(&mut models, &mut id_to_index, 136, cube_column(39, 40));  // block/oak_log_top, block/oak_log
        register(&mut models, &mut id_to_index, 137, cube_column(39, 40));  // block/oak_log_top, block/oak_log
        register(&mut models, &mut id_to_index, 138, cube_column(39, 40));  // block/oak_log_top, block/oak_log
        register(&mut models, &mut id_to_index, 139, cube_column(41, 42));  // block/spruce_log_top, block/spruce_log
        register(&mut models, &mut id_to_index, 140, cube_column(41, 42));  // block/spruce_log_top, block/spruce_log
        register(&mut models, &mut id_to_index, 141, cube_column(41, 42));  // block/spruce_log_top, block/spruce_log
        register(&mut models, &mut id_to_index, 142, cube_column(43, 44));  // block/birch_log_top, block/birch_log
        register(&mut models, &mut id_to_index, 143, cube_column(43, 44));  // block/birch_log_top, block/birch_log
        register(&mut models, &mut id_to_index, 144, cube_column(43, 44));  // block/birch_log_top, block/birch_log
        register(&mut models, &mut id_to_index, 145, cube_column(45, 46));  // block/jungle_log_top, block/jungle_log
        register(&mut models, &mut id_to_index, 146, cube_column(45, 46));  // block/jungle_log_top, block/jungle_log
        register(&mut models, &mut id_to_index, 147, cube_column(45, 46));  // block/jungle_log_top, block/jungle_log
        assert(forall|k: u16|
            #[trigger] id_to_index@.contains_key(k) <==> (registered_group_0(k)
                || registered_group_1(k)));
        register(&mut models, &mut id_to_index, 148, cube_column(47, 48));  // block/acacia_log_top, block/acacia_log
        register(&mut models, &mut id_to_index, 149, cube_column(47, 48));  // block/acacia_log_top, block/acacia_log
        register(&mut models, &mut id_to_index, 150, cube_column(47, 48));  // block/acacia_log_top, block/acacia_log
        register(&mut models, &mut id_to_index, 151, cube_column(49, 50));  // block/cherry_log_top, block/cherry_log
        register(&mut models, &mut id_to_index, 152, cube_column(49, 50));  // block/cherry_log_top, block/cherry_log
        register(&mut models, &mut id_to_index, 153, cube_column(49, 50));  // block/cherry_log_top, block/cherry_log
        register(&mut models, &mut id_to_index, 154, cube_column(51, 52));  // block/dark_oak_log_top, block/dark_oak_log
        register(&mut models, &mut id_to_index, 155, cube_column(51, 52));  // block/dark_oak_log_top, block/dark_oak_log
        register(&mut models, &mut id_to_index, 156, cube_column(51, 52));  // block/dark_oak_log_top, block/dark_oak_log
        register(&mut models, &mut id_to_index, 157, cube_column(55, 56));  // block/pale_oak_log_top, block/pale_oak_log
        register(&mut models, &mut id_to_index, 158, cube_column(55, 56));  // block/pale_oak_log_top, block/pale_oak_log
        register(&mut models, &mut id_to_index, 159, cube_column(55, 56));  // block/pale_oak_log_top, block/pale_oak_log
        register(&mut models, &mut id_to_index, 160, cube_column(53, 54));  // block/mangrove_log_top, block/mangrove_log
        register(&mut models, &mut id_to_index, 161, cube_column(53, 54));  // block/mangrove_log_top, block/mangrove_log
        register(&mut models, &mut id_to_index, 162, cube_column(53, 54));  // block/mangrove_log_top, block/mangrove_log
        register(&mut models, &mut id_to_index, 192, cube_column(57, 58));  // block/stripped_oak_log_top, block/stripped_oak_log
        register(&mut models, &mut id_to_index, 193, cube_column(57, 58));  // block/stripped_oak_log_top, block/stripped_oak_log
        register(&mut models, &mut id_to_index, 194, cube_column(57, 58));  // block/stripped_oak_log_top, block/stripped_oak_log
        register(&mut models, &mut id_to_index, 171, cube_column(59, 60));  // block/stripped_spruce_log_top, block/stripped_spruce_log
        register(&mut models, &mut id_to_index, 172, cube_column(59, 60));  // block/stripped_spruce_log_top, block/stripped_spruce_log
        register(&mut models, &mut id_to_index, 173, cube_column(59, 60));  // block/stripped_spruce_log_top, block/stripped_spruce_log
        register(&mut models, &mut id_to_index, 278, glass());  // placeholder
        register(&mut models, &mut id_to_index, 306, glass());  // placeholder
        register(&mut models, &mut id_to_index, 334, glass());  // placeholder
        register(&mut models, &mut id_to_index, 362, glass());  // placeholder
        register(&mut models, &mut id_to_index, 390, glass());  // placeholder
        assert(forall|k: u16|
            #[trigger] id_to_index@.contains_key(k) <==> (registered_group_0(k)
                || registered_group_1(k)
                || registered_group_2(k)));
        register(&mut models, &mut id_to_index, 418, glass());  // placeholder
        register(&mut models, &mut id_to_index, 446, glass());  // placeholder
        register(&mut models, &mut id_to_index, 502, glass());  // placeholder
        register(&mut models, &mut id_to_index, 129, cube_all(66));  // block/gold_ore
        register(&mut models, &mut id_to_index, 130, cube_bottom_top(82, 82, 88));  // block/deepslate_top, block/deepslate_gold_ore
        register(&mut models, &mut id_to_index, 131, cube_all(65));  // block/iron_ore
        register(&mut models, &mut id_to_index, 132, cube_bottom_top(82, 82, 86));  // block/deepslate_top, block/deepslate_iron_ore
        register(&mut models, &mut id_to_index, 133, cube_all(64));  // block/coal_ore
        register(&mut models, &mut id_to_index, 134, cube_bottom_top(82, 82, 85));  // block/deepslate_top, block/deepslate_coal_ore
        register(&mut models, &mut id_to_index, 135, cube_all(67));  // block/nether_gold_ore
        register(&mut models, &mut id_to_index, 23970, cube_all(68));  // block/copper_ore
        register(&mut models, &mut id_to_index, 22109, cube_all(93));  // block/tuff
        register(&mut models, &mut id_to_index, 23344, cube_all(94));  // block/calcite
        register(&mut models, &mut id_to_index, 25796, cube_all(95));  // block/dripstone_block
        register(&mut models, &mut id_to_index, 25967, cube_all(84));  // block/cobbled_deepslate
        register(&mut models, &mut id_to_index, 6028, cube_all(97));  // block/netherrack
        register(&mut models, &mut id_to_index, 6029, cube_all(98));  // block/soul_sand
        register(&mut models, &mut id_to_index, 13566, cube_all(99));  // block/magma
        register(&mut models, &mut id_to_index, 2137, cube_all(75));  // block/gold_block
        register(&mut models, &mut id_to_index, 2138, cube_all(74));  // block/iron_block
        register(&mut models, &mut id_to_index, 4340, cube_all(76));  // block/diamond_block
        register(&mut models, &mut id_to_index, 8449, cube_all(77));  // block/emerald_block
        register(&mut models, &mut id_to_index, 565, cube_all(78));  // block/lapis_block
        register(&mut models, &mut id_to_index, 11634, cube_all(73));  // block/coal_block
        register(&mut models, &mut id_to_index, 20475, cube_all(80));  // block/netherite_block
        register(&mut models, &mut id_to_index, 578, cube_bottom_top(101, 100, 102));  // block/sandstone_bottom, block/sandstone_top, block/sandstone
        assert(forall|k: u16|
            #[trigger] id_to_index@.contains_key(k) <==> (registered_group_0(k)
                || registered_group_1(k)
                || registered_group_2(k)
                || registered_group_3(k)));
        register(&mut models, &mut id_to_index, 579, cube_bottom_top(101, 100, 102));  // block/sandstone_bottom, block/sandstone_top, block/sandstone
        register(&mut models, &mut id_to_index, 580, cube_bottom_top(101, 100, 102));  // block/sandstone_bottom, block/sandstone_top, block/sandstone
        register(&mut models, &mut id_to_index, 2093, cube_all(124));  // block/white_wool
        register(&mut models, &mut id_to_index, 2094, cube_all(125));  // block/orange_wool
        register(&mut models, &mut id_to_index, 2095, cube_all(126));  // block/magenta_wool
        register(&mut models, &mut id_to_index, 2096, cube_all(127));  // block/light_blue_wool
        register(&mut models, &mut id_to_index, 2097, cube_all(128));  // block/yellow_wool
        register(&mut models, &mut id_to_index, 2098, cube_all(129));  // block/lime_wool
        register(&mut models, &mut id_to_index, 2099, cube_all(130));  // block/pink_wool
        register(&mut models, &mut id_to_index, 2100, cube_all(131));  // block/gray_wool
        register(&mut models, &mut id_to_index, 2101, cube_all(132));  // block/light_gray_wool
        register(&mut models, &mut id_to_index, 2102, cube_all(133));  // block/cyan_wool
        register(&mut models, &mut id_to_index, 2103, cube_all(134));  // block/purple_wool
        register(&mut models, &mut id_to_index, 2104, cube_all(135));  // block/blue_wool
        register(&mut models, &mut id_to_index, 2105, cube_all(136));  // block/brown_wool
        register(&mut models, &mut id_to_index, 2106, cube_all(137));  // block/green_wool
        register(&mut models, &mut id_to_index, 2107, cube_all(138));  // block/red_wool
        register(&mut models, &mut id_to_index, 2108, cube_all(139));  // block/black_wool
        register(&mut models, &mut id_to_index, 560, cube_all(118));  // block/sponge
        register(&mut models, &mut id_to_index, 562, cube_all(119));  // block/glass
        register(&mut models, &mut id_to_index, 2142, cube_bottom_top(28, 28, 109));  // block/oak_planks, block/bookshelf
        register(&mut models, &mut id_to_index, 4341, BlockModel { faces: [BlockFace { texture: 28 }, BlockFace { texture: 110 }, BlockFace { texture: 111 }, BlockFace { texture: 112 }, BlockFace { texture: 112 }, BlockFace { texture: 111 }], overlay: None, transparent: false });  // block/oak_planks, block/crafting_table_top, block/crafting_table_front, block/crafting_table_side
        BlockRegistry { models, id_to_index, textures }
    }

    /// The model registered for `id`, if any.
    pub fn get(&self, id: u16) -> (r: Option<&BlockModel>)
        requires
            self.wf(),
        ensures
            r == (if self.view_models().contains_key(id) {
                Some(&self.view_models()[id])
            } else {
                None
            }),
    {
        match self.id_to_index.get(&id) {
            Some(i) => Some(&self.models[*i]),
            None => None,
        }
    }
}

} // verus!
