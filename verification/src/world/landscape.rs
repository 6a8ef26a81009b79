//! Procedural landscape bookkeeping that is not floating-point work: the
//! names of the runtime-tunable terrain parameters, and the triangle layout
//! of the terrain grid.
use vstd::prelude::*;

use crate::text::{concatenated, str_eq};

verus! {

/// Number of vertices along each edge of the terrain grid.
pub const LANDSCAPE_GRID_RESOLUTION: usize = 512;

/// A runtime-tunable terrain-generation parameter, addressed by its
/// kebab-case name (mirroring the erosion shader's own parameter names).
#[derive(Clone, Copy, Debug, PartialEq, Eq, Structural)]
pub enum LandscapeParameter {
    ErosionScale,
    ErosionStrength,
    ErosionGullyWeight,
    ErosionDetail,
    ErosionRoundingRidge,
    ErosionRoundingCrease,
    ErosionRoundingHeightMultiplier,
    ErosionRoundingOctaveMultiplier,
    ErosionOnsetInitial,
    ErosionOnsetOctave,
    ErosionOnsetRidgeMapInitial,
    ErosionOnsetRidgeMapOctave,
    ErosionAssumedSlopeValue,
    ErosionAssumedSlopeAmount,
    ErosionCellScale,
    ErosionNormalization,
    ErosionOctaves,
    ErosionLacunarity,
    ErosionGain,
    ErosionEnabled,
    TerrainHeightOffsetValue,
    TerrainHeightOffsetErosionMix,
    HeightFrequency,
    HeightAmplitude,
    HeightOctaves,
    HeightLacunarity,
    HeightGain,
    WorldHeightScaleMeters,
    WorldHeightOffsetMeters,
    LowlandFlattenHeightMeters,
    LowlandFlattenRangeMeters,
    LowlandFlattenStrength,
    ColorRockSlopeStart,
    ColorRockSlopeEnd,
    ColorBlendSharpness,
    SnowSlopeBias,
}

/// The kebab-case name of a parameter.
pub open spec fn parameter_name(parameter: LandscapeParameter) -> Seq<char> {
    match parameter {
        LandscapeParameter::ErosionScale => "erosion-scale"@,
        LandscapeParameter::ErosionStrength => "erosion-strength"@,
        LandscapeParameter::ErosionGullyWeight => "erosion-gully-weight"@,
        LandscapeParameter::ErosionDetail => "erosion-detail"@,
        LandscapeParameter::ErosionRoundingRidge => "erosion-rounding-ridge"@,
        LandscapeParameter::ErosionRoundingCrease => "erosion-rounding-crease"@,
        LandscapeParameter::ErosionRoundingHeightMultiplier => "erosion-rounding-height-multiplier"@,
        LandscapeParameter::ErosionRoundingOctaveMultiplier => "erosion-rounding-octave-multiplier"@,
        LandscapeParameter::ErosionOnsetInitial => "erosion-onset-initial"@,
        LandscapeParameter::ErosionOnsetOctave => "erosion-onset-octave"@,
        LandscapeParameter::ErosionOnsetRidgeMapInitial => "erosion-onset-ridge-map-initial"@,
        LandscapeParameter::ErosionOnsetRidgeMapOctave => "erosion-onset-ridge-map-octave"@,
        LandscapeParameter::ErosionAssumedSlopeValue => "erosion-assumed-slope-value"@,
        LandscapeParameter::ErosionAssumedSlopeAmount => "erosion-assumed-slope-amount"@,
        LandscapeParameter::ErosionCellScale => "erosion-cell-scale"@,
        LandscapeParameter::ErosionNormalization => "erosion-normalization"@,
        LandscapeParameter::ErosionOctaves => "erosion-octaves"@,
        LandscapeParameter::ErosionLacunarity => "erosion-lacunarity"@,
        LandscapeParameter::ErosionGain => "erosion-gain"@,
        LandscapeParameter::ErosionEnabled => "erosion-enabled"@,
        LandscapeParameter::TerrainHeightOffsetValue => "terrain-height-offset-value"@,
        LandscapeParameter::TerrainHeightOffsetErosionMix => "terrain-height-offset-erosion-mix"@,
        LandscapeParameter::HeightFrequency => "height-frequency"@,
        LandscapeParameter::HeightAmplitude => "height-amplitude"@,
        LandscapeParameter::HeightOctaves => "height-octaves"@,
        LandscapeParameter::HeightLacunarity => "height-lacunarity"@,
        LandscapeParameter::HeightGain => "height-gain"@,
        LandscapeParameter::WorldHeightScaleMeters => "world-height-scale-meters"@,
        LandscapeParameter::WorldHeightOffsetMeters => "world-height-offset-meters"@,
        LandscapeParameter::LowlandFlattenHeightMeters => "lowland-flatten-height-meters"@,
        LandscapeParameter::LowlandFlattenRangeMeters => "lowland-flatten-range-meters"@,
        LandscapeParameter::LowlandFlattenStrength => "lowland-flatten-strength"@,
        LandscapeParameter::ColorRockSlopeStart => "color-rock-slope-start"@,
        LandscapeParameter::ColorRockSlopeEnd => "color-rock-slope-end"@,
        LandscapeParameter::ColorBlendSharpness => "color-blend-sharpness"@,
        LandscapeParameter::SnowSlopeBias => "snow-slope-bias"@,
    }
}

/// The parameter a name addresses, if any.
pub open spec fn parameter_named(name: Seq<char>) -> Option<LandscapeParameter> {
    if name == "erosion-scale"@ {
        Some(LandscapeParameter::ErosionScale)
    } else if name == "erosion-strength"@ {
        Some(LandscapeParameter::ErosionStrength)
    } else if name == "erosion-gully-weight"@ {
        Some(LandscapeParameter::ErosionGullyWeight)
    } else if name == "erosion-detail"@ {
        Some(LandscapeParameter::ErosionDetail)
    } else if name == "erosion-rounding-ridge"@ {
        Some(LandscapeParameter::ErosionRoundingRidge)
    } else if name == "erosion-rounding-crease"@ {
        Some(LandscapeParameter::ErosionRoundingCrease)
    } else if name == "erosion-rounding-height-multiplier"@ {
        Some(LandscapeParameter::ErosionRoundingHeightMultiplier)
    } else if name == "erosion-rounding-octave-multiplier"@ {
        Some(LandscapeParameter::ErosionRoundingOctaveMultiplier)
    } else if name == "erosion-onset-initial"@ {
        Some(LandscapeParameter::ErosionOnsetInitial)
    } else if name == "erosion-onset-octave"@ {
        Some(LandscapeParameter::ErosionOnsetOctave)
    } else if name == "erosion-onset-ridge-map-initial"@ {
        Some(LandscapeParameter::ErosionOnsetRidgeMapInitial)
    } else if name == "erosion-onset-ridge-map-octave"@ {
        Some(LandscapeParameter::ErosionOnsetRidgeMapOctave)
    } else if name == "erosion-assumed-slope-value"@ {
        Some(LandscapeParameter::ErosionAssumedSlopeValue)
    } else if name == "erosion-assumed-slope-amount"@ {
        Some(LandscapeParameter::ErosionAssumedSlopeAmount)
    } else if name == "erosion-cell-scale"@ {
        Some(LandscapeParameter::ErosionCellScale)
    } else if name == "erosion-normalization"@ {
        Some(LandscapeParameter::ErosionNormalization)
    } else if name == "erosion-octaves"@ {
        Some(LandscapeParameter::ErosionOctaves)
    } else if name == "erosion-lacunarity"@ {
        Some(LandscapeParameter::ErosionLacunarity)
    } else if name == "erosion-gain"@ {
        Some(LandscapeParameter::ErosionGain)
    } else if name == "erosion-enabled"@ {
        Some(LandscapeParameter::ErosionEnabled)
    } else if name == "terrain-height-offset-value"@ {
        Some(LandscapeParameter::TerrainHeightOffsetValue)
    } else if name == "terrain-height-offset-erosion-mix"@ {
        Some(LandscapeParameter::TerrainHeightOffsetErosionMix)
    } else if name == "height-frequency"@ {
        Some(LandscapeParameter::HeightFrequency)
    } else if name == "height-amplitude"@ {
        Some(LandscapeParameter::HeightAmplitude)
    } else if name == "height-octaves"@ {
        Some(LandscapeParameter::HeightOctaves)
    } else if name == "height-lacunarity"@ {
        Some(LandscapeParameter::HeightLacunarity)
    } else if name == "height-gain"@ {
        Some(LandscapeParameter::HeightGain)
    } else if name == "world-height-scale-meters"@ {
        Some(LandscapeParameter::WorldHeightScaleMeters)
    } else if name == "world-height-offset-meters"@ {
        Some(LandscapeParameter::WorldHeightOffsetMeters)
    } else if name == "lowland-flatten-height-meters"@ {
        Some(LandscapeParameter::LowlandFlattenHeightMeters)
    } else if name == "lowland-flatten-range-meters"@ {
        Some(LandscapeParameter::LowlandFlattenRangeMeters)
    } else if name == "lowland-flatten-strength"@ {
        Some(LandscapeParameter::LowlandFlattenStrength)
    } else if name == "color-rock-slope-start"@ {
        Some(LandscapeParameter::ColorRockSlopeStart)
    } else if name == "color-rock-slope-end"@ {
        Some(LandscapeParameter::ColorRockSlopeEnd)
    } else if name == "color-blend-sharpness"@ {
        Some(LandscapeParameter::ColorBlendSharpness)
    } else if name == "snow-slope-bias"@ {
        Some(LandscapeParameter::SnowSlopeBias)
    } else {
        None
    }
}

/// The message a name that addresses no parameter is rejected with.
pub open spec fn unknown_parameter_message(name: Seq<char>) -> Seq<char> {
    "unknown landscape parameter '"@ + name + "'"@
}

/// The kebab-case name of `parameter`.
pub fn landscape_parameter_name(parameter: LandscapeParameter) -> (r: &'static str)
    ensures
        r@ == parameter_name(parameter),
{
    match parameter {
        LandscapeParameter::ErosionScale => "erosion-scale",
        LandscapeParameter::ErosionStrength => "erosion-strength",
        LandscapeParameter::ErosionGullyWeight => "erosion-gully-weight",
        LandscapeParameter::ErosionDetail => "erosion-detail",
        LandscapeParameter::ErosionRoundingRidge => "erosion-rounding-ridge",
        LandscapeParameter::ErosionRoundingCrease => "erosion-rounding-crease",
        LandscapeParameter::ErosionRoundingHeightMultiplier => "erosion-rounding-height-multiplier",
        LandscapeParameter::ErosionRoundingOctaveMultiplier => "erosion-rounding-octave-multiplier",
        LandscapeParameter::ErosionOnsetInitial => "erosion-onset-initial",
        LandscapeParameter::ErosionOnsetOctave => "erosion-onset-octave",
        LandscapeParameter::ErosionOnsetRidgeMapInitial => "erosion-onset-ridge-map-initial",
        LandscapeParameter::ErosionOnsetRidgeMapOctave => "erosion-onset-ridge-map-octave",
        LandscapeParameter::ErosionAssumedSlopeValue => "erosion-assumed-slope-value",
        LandscapeParameter::ErosionAssumedSlopeAmount => "erosion-assumed-slope-amount",
        LandscapeParameter::ErosionCellScale => "erosion-cell-scale",
        LandscapeParameter::ErosionNormalization => "erosion-normalization",
        LandscapeParameter::ErosionOctaves => "erosion-octaves",
        LandscapeParameter::ErosionLacunarity => "erosion-lacunarity",
        LandscapeParameter::ErosionGain => "erosion-gain",
        LandscapeParameter::ErosionEnabled => "erosion-enabled",
        LandscapeParameter::TerrainHeightOffsetValue => "terrain-height-offset-value",
        LandscapeParameter::TerrainHeightOffsetErosionMix => "terrain-height-offset-erosion-mix",
        LandscapeParameter::HeightFrequency => "height-frequency",
        LandscapeParameter::HeightAmplitude => "height-amplitude",
        LandscapeParameter::HeightOctaves => "height-octaves",
        LandscapeParameter::HeightLacunarity => "height-lacunarity",
        LandscapeParameter::HeightGain => "height-gain",
        LandscapeParameter::WorldHeightScaleMeters => "world-height-scale-meters",
        LandscapeParameter::WorldHeightOffsetMeters => "world-height-offset-meters",
        LandscapeParameter::LowlandFlattenHeightMeters => "lowland-flatten-height-meters",
        LandscapeParameter::LowlandFlattenRangeMeters => "lowland-flatten-range-meters",
        LandscapeParameter::LowlandFlattenStrength => "lowland-flatten-strength",
        LandscapeParameter::ColorRockSlopeStart => "color-rock-slope-start",
        LandscapeParameter::ColorRockSlopeEnd => "color-rock-slope-end",
        LandscapeParameter::ColorBlendSharpness => "color-blend-sharpness",
        LandscapeParameter::SnowSlopeBias => "snow-slope-bias",
    }
}

/// The parameter named `name`, or the message naming the unknown parameter.
/// Reachable from the debug console with arbitrary input, so an unknown name
/// is an error, never a panic.
pub fn parse_landscape_parameter(name: &str) -> (r: Result<LandscapeParameter, String>)
    ensures
        match r {
            Ok(parameter) => parameter_named(name@) == Some(parameter),
            Err(message) => parameter_named(name@) is None && message@
                == unknown_parameter_message(name@),
        },
{
    if str_eq(name, "erosion-scale") {
        return Ok(LandscapeParameter::ErosionScale);
    }
    if str_eq(name, "erosion-strength") {
        return Ok(LandscapeParameter::ErosionStrength);
    }
    if str_eq(name, "erosion-gully-weight") {
        return Ok(LandscapeParameter::ErosionGullyWeight);
    }
    if str_eq(name, "erosion-detail") {
        return Ok(LandscapeParameter::ErosionDetail);
    }
    if str_eq(name, "erosion-rounding-ridge") {
        return Ok(LandscapeParameter::ErosionRoundingRidge);
    }
    if str_eq(name, "erosion-rounding-crease") {
        return Ok(LandscapeParameter::ErosionRoundingCrease);
    }
    if str_eq(name, "erosion-rounding-height-multiplier") {
        return Ok(LandscapeParameter::ErosionRoundingHeightMultiplier);
    }
    if str_eq(name, "erosion-rounding-octave-multiplier") {
        return Ok(LandscapeParameter::ErosionRoundingOctaveMultiplier);
    }
    if str_eq(name, "erosion-onset-initial") {
        return Ok(LandscapeParameter::ErosionOnsetInitial);
    }
    if str_eq(name, "erosion-onset-octave") {
        return Ok(LandscapeParameter::ErosionOnsetOctave);
    }
    if str_eq(name, "erosion-onset-ridge-map-initial") {
        return Ok(LandscapeParameter::ErosionOnsetRidgeMapInitial);
    }
    if str_eq(name, "erosion-onset-ridge-map-octave") {
        return Ok(LandscapeParameter::ErosionOnsetRidgeMapOctave);
    }
    if str_eq(name, "erosion-assumed-slope-value") {
        return Ok(LandscapeParameter::ErosionAssumedSlopeValue);
    }
    if str_eq(name, "erosion-assumed-slope-amount") {
        return Ok(LandscapeParameter::ErosionAssumedSlopeAmount);
    }
    if str_eq(name, "erosion-cell-scale") {
        return Ok(LandscapeParameter::ErosionCellScale);
    }
    if str_eq(name, "erosion-normalization") {
        return Ok(LandscapeParameter::ErosionNormalization);
    }
    if str_eq(name, "erosion-octaves") {
        return Ok(LandscapeParameter::ErosionOctaves);
    }
    if str_eq(name, "erosion-lacunarity") {
        return Ok(LandscapeParameter::ErosionLacunarity);
    }
    if str_eq(name, "erosion-gain") {
        return Ok(LandscapeParameter::ErosionGain);
    }
    if str_eq(name, "erosion-enabled") {
        return Ok(LandscapeParameter::ErosionEnabled);
    }
    if str_eq(name, "terrain-height-offset-value") {
        return Ok(LandscapeParameter::TerrainHeightOffsetValue);
    }
    if str_eq(name, "terrain-height-offset-erosion-mix") {
        return Ok(LandscapeParameter::TerrainHeightOffsetErosionMix);
    }
    if str_eq(name, "height-frequency") {
        return Ok(LandscapeParameter::HeightFrequency);
    }
    if str_eq(name, "height-amplitude") {
        return Ok(LandscapeParameter::HeightAmplitude);
    }
    if str_eq(name, "height-octaves") {
        return Ok(LandscapeParameter::HeightOctaves);
    }
    if str_eq(name, "height-lacunarity") {
        return Ok(LandscapeParameter::HeightLacunarity);
    }
    if str_eq(name, "height-gain") {
        return Ok(LandscapeParameter::HeightGain);
    }
    if str_eq(name, "world-height-scale-meters") {
        return Ok(LandscapeParameter::WorldHeightScaleMeters);
    }
    if str_eq(name, "world-height-offset-meters") {
        return Ok(LandscapeParameter::WorldHeightOffsetMeters);
    }
    if str_eq(name, "lowland-flatten-height-meters") {
        return Ok(LandscapeParameter::LowlandFlattenHeightMeters);
    }
    if str_eq(name, "lowland-flatten-range-meters") {
        return Ok(LandscapeParameter::LowlandFlattenRangeMeters);
    }
    if str_eq(name, "lowland-flatten-strength") {
        return Ok(LandscapeParameter::LowlandFlattenStrength);
    }
    if str_eq(name, "color-rock-slope-start") {
        return Ok(LandscapeParameter::ColorRockSlopeStart);
    }
    if str_eq(name, "color-rock-slope-end") {
        return Ok(LandscapeParameter::ColorRockSlopeEnd);
    }
    if str_eq(name, "color-blend-sharpness") {
        return Ok(LandscapeParameter::ColorBlendSharpness);
    }
    if str_eq(name, "snow-slope-bias") {
        return Ok(LandscapeParameter::SnowSlopeBias);
    }
    let opened = concatenated("unknown landscape parameter '", name);
    Err(concatenated(opened.as_str(), "'"))
}

/// Every parameter is addressed by its own name: reading a parameter's name
/// back addresses that same parameter, so no two parameters share a name.
pub proof fn law_parameter_names_round_trip(parameter: LandscapeParameter)
    ensures
        parameter_named(parameter_name(parameter)) == Some(parameter),
{
    reveal_strlit("erosion-scale");
    reveal_strlit("erosion-strength");
    reveal_strlit("erosion-gully-weight");
    reveal_strlit("erosion-detail");
    reveal_strlit("erosion-rounding-ridge");
    reveal_strlit("erosion-rounding-crease");
    reveal_strlit("erosion-rounding-height-multiplier");
    reveal_strlit("erosion-rounding-octave-multiplier");
    reveal_strlit("erosion-onset-initial");
    reveal_strlit("erosion-onset-octave");
    reveal_strlit("erosion-onset-ridge-map-initial");
    reveal_strlit("erosion-onset-ridge-map-octave");
    reveal_strlit("erosion-assumed-slope-value");
    reveal_strlit("erosion-assumed-slope-amount");
    reveal_strlit("erosion-cell-scale");
    reveal_strlit("erosion-normalization");
    reveal_strlit("erosion-octaves");
    reveal_strlit("erosion-lacunarity");
    reveal_strlit("erosion-gain");
    reveal_strlit("erosion-enabled");
    reveal_strlit("terrain-height-offset-value");
    reveal_strlit("terrain-height-offset-erosion-mix");
    reveal_strlit("height-frequency");
    reveal_strlit("height-amplitude");
    reveal_strlit("height-octaves");
    reveal_strlit("height-lacunarity");
    reveal_strlit("height-gain");
    reveal_strlit("world-height-scale-meters");
    reveal_strlit("world-height-offset-meters");
    reveal_strlit("lowland-flatten-height-meters");
    reveal_strlit("lowland-flatten-range-meters");
    reveal_strlit("lowland-flatten-strength");
    reveal_strlit("color-rock-slope-start");
    reveal_strlit("color-rock-slope-end");
    reveal_strlit("color-blend-sharpness");
    reveal_strlit("snow-slope-bias");
    assert("erosion-scale"@.len() == 13);
    assert("erosion-strength"@.len() == 16);
    assert("erosion-gully-weight"@.len() == 20);
    assert("erosion-detail"@.len() == 14);
    assert("erosion-rounding-ridge"@.len() == 22);
    assert("erosion-rounding-crease"@.len() == 23);
    assert("erosion-rounding-height-multiplier"@.len() == 34);
    assert("erosion-rounding-octave-multiplier"@.len() == 34);
    assert("erosion-onset-initial"@.len() == 21);
    assert("erosion-onset-octave"@.len() == 20);
    assert("erosion-onset-ridge-map-initial"@.len() == 31);
    assert("erosion-onset-ridge-map-octave"@.len() == 30);
    assert("erosion-assumed-slope-value"@.len() == 27);
    assert("erosion-assumed-slope-amount"@.len() == 28);
    assert("erosion-cell-scale"@.len() == 18);
    assert("erosion-normalization"@.len() == 21);
    assert("erosion-octaves"@.len() == 15);
    assert("erosion-lacunarity"@.len() == 18);
    assert("erosion-gain"@.len() == 12);
    assert("erosion-enabled"@.len() == 15);
    assert("terrain-height-offset-value"@.len() == 27);
    assert("terrain-height-offset-erosion-mix"@.len() == 33);
    assert("height-frequency"@.len() == 16);
    assert("height-amplitude"@.len() == 16);
    assert("height-octaves"@.len() == 14);
    assert("height-lacunarity"@.len() == 17);
    assert("height-gain"@.len() == 11);
    assert("world-height-scale-meters"@.len() == 25);
    assert("world-height-offset-meters"@.len() == 26);
    assert("lowland-flatten-height-meters"@.len() == 29);
    assert("lowland-flatten-range-meters"@.len() == 28);
    assert("lowland-flatten-strength"@.len() == 24);
    assert("color-rock-slope-start"@.len() == 22);
    assert("color-rock-slope-end"@.len() == 20);
    assert("color-blend-sharpness"@.len() == 21);
    assert("snow-slope-bias"@.len() == 15);
    assert("erosion-strength"@[0] == 'e' && "height-frequency"@[0] == 'h');
    assert("erosion-strength"@[0] == 'e' && "height-amplitude"@[0] == 'h');
    assert("height-frequency"@[7] == 'f' && "height-amplitude"@[7] == 'a');
    assert("erosion-gully-weight"@[8] == 'g' && "erosion-onset-octave"@[8] == 'o');
    assert("erosion-gully-weight"@[0] == 'e' && "color-rock-slope-end"@[0] == 'c');
    assert("erosion-onset-octave"@[0] == 'e' && "color-rock-slope-end"@[0] == 'c');
    assert("erosion-detail"@[0] == 'e' && "height-octaves"@[0] == 'h');
    assert("erosion-rounding-ridge"@[0] == 'e' && "color-rock-slope-start"@[0] == 'c');
    assert("erosion-rounding-height-multiplier"@[17] == 'h' && "erosion-rounding-octave-multiplier"@[17] == 'o');
    assert("erosion-onset-initial"@[8] == 'o' && "erosion-normalization"@[8] == 'n');
    assert("erosion-onset-initial"@[0] == 'e' && "color-blend-sharpness"@[0] == 'c');
    assert("erosion-normalization"@[0] == 'e' && "color-blend-sharpness"@[0] == 'c');
    assert("erosion-assumed-slope-value"@[0] == 'e' && "terrain-height-offset-value"@[0] == 't');
    assert("erosion-assumed-slope-amount"@[0] == 'e' && "lowland-flatten-range-meters"@[0] == 'l');
    assert("erosion-cell-scale"@[8] == 'c' && "erosion-lacunarity"@[8] == 'l');
    assert("erosion-octaves"@[8] == 'o' && "erosion-enabled"@[8] == 'e');
    assert("erosion-octaves"@[0] == 'e' && "snow-slope-bias"@[0] == 's');
    assert("erosion-enabled"@[0] == 'e' && "snow-slope-bias"@[0] == 's');
}
/// The index of the vertex at `row`, `column` of a grid `resolution` vertices wide.
pub open spec fn grid_vertex(resolution: int, row: int, column: int) -> int {
    row * resolution + column
}

/// The six indices of the grid quad whose top-left vertex is at `row`,
/// `column`: the triangle top-left, bottom-left, top-right, then the triangle
/// top-right, bottom-left, bottom-right, both wound to face up.
pub open spec fn quad_indices(resolution: int, row: int, column: int) -> Seq<int> {
    let top_left = grid_vertex(resolution, row, column);
    let top_right = grid_vertex(resolution, row, column + 1);
    let bottom_left = grid_vertex(resolution, row + 1, column);
    let bottom_right = grid_vertex(resolution, row + 1, column + 1);
    seq![top_left, bottom_left, top_right, top_right, bottom_left, bottom_right]
}

/// The quads of row `row`, columns `0 .. columns`, left to right.
pub open spec fn row_quads(resolution: int, row: int, columns: int) -> Seq<int>
    decreases columns,
{
    if columns <= 0 {
        Seq::empty()
    } else {
        row_quads(resolution, row, columns - 1) + quad_indices(resolution, row, columns - 1)
    }
}

/// The quads of rows `0 .. rows`, top to bottom.
pub open spec fn grid_quads(resolution: int, rows: int) -> Seq<int>
    decreases rows,
{
    if rows <= 0 {
        Seq::empty()
    } else {
        grid_quads(resolution, rows - 1) + row_quads(resolution, rows - 1, resolution - 1)
    }
}

/// The triangle list of a whole `resolution`-by-`resolution` vertex grid.
pub open spec fn grid_triangle_list(resolution: int) -> Seq<int> {
    grid_quads(resolution, resolution - 1)
}

/// The mathematical form of a list of `u32` indices.
pub open spec fn indices_view(indices: Seq<u32>) -> Seq<int> {
    indices.map_values(|i: u32| i as int)
}

proof fn lemma_vertex_in_grid(resolution: int, row: int, column: int)
    requires
        0 <= row < resolution,
        0 <= column < resolution,
    ensures
        0 <= grid_vertex(resolution, row, column) < resolution * resolution,
{
    assert(0 <= row * resolution + column < resolution * resolution) by (nonlinear_arith)
        requires
            0 <= row < resolution,
            0 <= column < resolution,
    ;
}

proof fn lemma_row_quads(resolution: int, row: int, columns: int)
    requires
        1 <= resolution,
        0 <= row < resolution - 1,
        0 <= columns <= resolution - 1,
    ensures
        row_quads(resolution, row, columns).len() == columns * 6,
        forall|k: int|
            0 <= k < columns * 6 ==> 0 <= #[trigger] row_quads(resolution, row, columns)[k]
                < resolution * resolution,
    decreases columns,
{
    if columns > 0 {
        lemma_row_quads(resolution, row, columns - 1);
        lemma_vertex_in_grid(resolution, row, columns - 1);
        lemma_vertex_in_grid(resolution, row, columns);
        lemma_vertex_in_grid(resolution, row + 1, columns - 1);
        lemma_vertex_in_grid(resolution, row + 1, columns);
        let before = row_quads(resolution, row, columns - 1);
        let quad = quad_indices(resolution, row, columns - 1);
        assert forall|k: int| 0 <= k < columns * 6 implies 0 <= #[trigger] row_quads(
            resolution,
            row,
            columns,
        )[k] < resolution * resolution by {
            if k < (columns - 1) * 6 {
                assert(row_quads(resolution, row, columns)[k] == before[k]);
            } else {
                assert(row_quads(resolution, row, columns)[k] == quad[k - (columns - 1) * 6]);
            }
        }
    }
}

proof fn lemma_grid_quads(resolution: int, rows: int)
    requires
        1 <= resolution,
        0 <= rows <= resolution - 1,
    ensures
        grid_quads(resolution, rows).len() == rows * (resolution - 1) * 6,
        forall|k: int|
            0 <= k < grid_quads(resolution, rows).len() ==> 0 <= #[trigger] grid_quads(
                resolution,
                rows,
            )[k] < resolution * resolution,
    decreases rows,
{
    if rows > 0 {
        lemma_grid_quads(resolution, rows - 1);
        lemma_row_quads(resolution, rows - 1, resolution - 1);
        let before = grid_quads(resolution, rows - 1);
        let row = row_quads(resolution, rows - 1, resolution - 1);
        assert((rows - 1) * (resolution - 1) * 6 + (resolution - 1) * 6 == rows * (resolution - 1)
            * 6) by (nonlinear_arith);
        assert forall|k: int| 0 <= k < grid_quads(resolution, rows).len() implies 0
            <= #[trigger] grid_quads(resolution, rows)[k] < resolution * resolution by {
            if k < before.len() {
                assert(grid_quads(resolution, rows)[k] == before[k]);
            } else {
                assert(grid_quads(resolution, rows)[k] == row[k - before.len()]);
            }
        }
    } else {
        assert(rows * (resolution - 1) * 6 == 0) by (nonlinear_arith)
            requires
                rows == 0,
        ;
    }
}

/// A grid has `(resolution - 1)²` quads of two triangles each, and every index
/// in its triangle list names one of its `resolution²` vertices.
pub proof fn law_grid_triangle_list_covers_the_grid(resolution: int)
    requires
        1 <= resolution,
    ensures
        grid_triangle_list(resolution).len() == (resolution - 1) * (resolution - 1) * 6,
        forall|k: int|
            0 <= k < grid_triangle_list(resolution).len() ==> 0
                <= #[trigger] grid_triangle_list(resolution)[k] < resolution * resolution,
{
    lemma_grid_quads(resolution, resolution - 1);
}

/// The index of the vertex at `row_index`, `column_index` of a grid
/// `resolution` vertices wide.
fn grid_vertex_index(resolution: usize, row_index: usize, column_index: usize) -> (r: u32)
    requires
        row_index < resolution,
        column_index < resolution,
        resolution * resolution <= 0x1_0000_0000,
    ensures
        r == grid_vertex(resolution as int, row_index as int, column_index as int),
{
    proof {
        lemma_vertex_in_grid(resolution as int, row_index as int, column_index as int);
    }
    (row_index * resolution + column_index) as u32
}

/// The index of the terrain vertex at `row_index`, `column_index`.
pub fn landscape_vertex_index(row_index: usize, column_index: usize) -> (r: u32)
    requires
        row_index < LANDSCAPE_GRID_RESOLUTION,
        column_index < LANDSCAPE_GRID_RESOLUTION,
    ensures
        r == grid_vertex(LANDSCAPE_GRID_RESOLUTION as int, row_index as int, column_index as int),
{
    grid_vertex_index(LANDSCAPE_GRID_RESOLUTION, row_index, column_index)
}

/// The triangle list of a `resolution`-by-`resolution` vertex grid, quad by
/// quad, row by row.
pub fn grid_triangle_indices(resolution: usize) -> (r: Vec<u32>)
    requires
        1 <= resolution,
        resolution * resolution <= 0x1_0000_0000,
    ensures
        indices_view(r@) == grid_triangle_list(resolution as int),
        r@.len() == (resolution - 1) * (resolution - 1) * 6,
{
    let quad_count_per_edge = resolution - 1;
    let ghost n = resolution as int;
    let mut triangle_indices: Vec<u32> = Vec::new();
    let mut row_index: usize = 0;
    while row_index < quad_count_per_edge
        invariant
            row_index <= quad_count_per_edge,
            quad_count_per_edge == resolution - 1,
            n == resolution,
            1 <= resolution,
            resolution * resolution <= 0x1_0000_0000,
            indices_view(triangle_indices@) == grid_quads(n, row_index as int),
        decreases quad_count_per_edge - row_index,
    {
        let mut column_index: usize = 0;
        while column_index < quad_count_per_edge
            invariant
                row_index < quad_count_per_edge,
                column_index <= quad_count_per_edge,
                quad_count_per_edge == resolution - 1,
                n == resolution,
                resolution * resolution <= 0x1_0000_0000,
                indices_view(triangle_indices@) == grid_quads(n, row_index as int) + row_quads(
                    n,
                    row_index as int,
                    column_index as int,
                ),
            decreases quad_count_per_edge - column_index,
        {
            let ghost before = indices_view(triangle_indices@);
            let top_left = grid_vertex_index(resolution, row_index, column_index);
            let top_right = grid_vertex_index(resolution, row_index, column_index + 1);
            let bottom_left = grid_vertex_index(resolution, row_index + 1, column_index);
            let bottom_right = grid_vertex_index(resolution, row_index + 1, column_index + 1);
            triangle_indices.push(top_left);
            triangle_indices.push(bottom_left);
            triangle_indices.push(top_right);
            triangle_indices.push(top_right);
            triangle_indices.push(bottom_left);
            triangle_indices.push(bottom_right);
            assert(indices_view(triangle_indices@) =~= before + quad_indices(
                n,
                row_index as int,
                column_index as int,
            ));
            column_index = column_index + 1;
        }
        row_index = row_index + 1;
    }
    proof {
        lemma_grid_quads(n, n - 1);
        assert(triangle_indices@.len() == indices_view(triangle_indices@).len());
    }
    triangle_indices
}

/// The terrain grid's triangle list.
pub fn build_landscape_triangle_indices() -> (r: Vec<u32>)
    ensures
        indices_view(r@) == grid_triangle_list(LANDSCAPE_GRID_RESOLUTION as int),
        r@.len() == (LANDSCAPE_GRID_RESOLUTION - 1) * (LANDSCAPE_GRID_RESOLUTION - 1) * 6,
{
    grid_triangle_indices(LANDSCAPE_GRID_RESOLUTION)
}

} // verus!
