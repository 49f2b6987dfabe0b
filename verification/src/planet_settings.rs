//! Planet settings, their validation, and the rule by which noise layers are
//! combined.

use vstd::prelude::*;

verus! {

/// Smallest resolution that can be triangulated: a grid of two by two vertices.
pub const MIN_RESOLUTION: u32 = 2;

/// Largest resolution whose vertex count still fits the 32-bit indices of a mesh.
pub const MAX_RESOLUTION: u32 = 65535;

/// Bit pattern of positive infinity in IEEE 754 single precision: the largest
/// pattern that compares greater than zero.
pub const POSITIVE_INFINITY_BITS: u32 = 0x7f80_0000;

/// Resolution of a planet that was not configured otherwise.
pub const DEFAULT_RESOLUTION: u32 = 100;

/// Radius of a planet that was not configured otherwise: the single-precision
/// bit pattern of two.
pub const DEFAULT_RADIUS_BITS: u32 = 0x4000_0000;

/// Why a settings value cannot be turned into a mesh.
#[derive(Clone, Copy, Debug, PartialEq, Eq, Structural)]
pub enum SettingsError {
    /// The resolution is below `MIN_RESOLUTION`.
    ResolutionTooSmall,
    /// The resolution is above `MAX_RESOLUTION`.
    ResolutionTooLarge,
    /// The radius does not compare greater than zero: it is zero, negative or
    /// not a number.
    RadiusNotPositive,
}

/// How the output of one noise layer enters the elevation of a point.
#[derive(Clone, Copy, Debug, PartialEq, Eq, Structural)]
pub enum Blend {
    /// The layer's output is added as it is.
    Full,
    /// The layer's output is multiplied by the output of the first layer
    /// before it is added.
    MaskedByFirst,
}

/// The part of a noise layer's settings that decides how the layer is
/// combined with the others.
#[derive(Clone, Copy, Debug, PartialEq, Eq, Structural)]
pub struct NoiseSettings {
    pub use_first_layer_as_mask: bool,
}

/// Settings of one planet.
///
/// The radius is carried as the IEEE 754 single-precision bit pattern of the
/// number, so that its validation is exact integer reasoning. The order of
/// `noise_filters` is significant: the first layer is the mask of the others.
#[derive(Clone, Debug, PartialEq, Eq)]
pub struct PlanetSettings {
    pub resolution: u32,
    pub radius_bits: u32,
    pub noise_filters: Vec<NoiseSettings>,
}

/// The single-precision number with this bit pattern compares greater than
/// zero: its sign bit is clear, it is not zero, and it is not a NaN.
pub open spec fn radius_is_positive(bits: u32) -> bool {
    0 < bits <= POSITIVE_INFINITY_BITS
}

/// The first reason, if any, for which settings with this resolution and
/// radius are rejected. The resolution is judged before the radius.
pub open spec fn validation_error(resolution: u32, radius_bits: u32) -> Option<SettingsError> {
    if resolution < MIN_RESOLUTION {
        Some(SettingsError::ResolutionTooSmall)
    } else if resolution > MAX_RESOLUTION {
        Some(SettingsError::ResolutionTooLarge)
    } else if !radius_is_positive(radius_bits) {
        Some(SettingsError::RadiusNotPositive)
    } else {
        None
    }
}

/// How layer `i` of a list of layers with these mask flags is blended: the
/// first layer always in full, a later one masked exactly if its flag is set.
pub open spec fn blend_of(flags: Seq<bool>, i: int) -> Blend {
    if i > 0 && flags[i] {
        Blend::MaskedByFirst
    } else {
        Blend::Full
    }
}

impl PlanetSettings {
    /// The mask flags of the layers, in order.
    pub open spec fn mask_flags(self) -> Seq<bool> {
        Seq::new(self.noise_filters@.len(), |i: int| self.noise_filters@[i].use_first_layer_as_mask)
    }

    /// The reason for which these settings are rejected, `None` if they are valid.
    pub open spec fn spec_validate(self) -> Option<SettingsError> {
        validation_error(self.resolution, self.radius_bits)
    }

    /// The blends of all layers, in order.
    pub open spec fn spec_blend_plan(self) -> Seq<Blend> {
        Seq::new(self.noise_filters@.len(), |i: int| blend_of(self.mask_flags(), i))
    }

    /// Settings with the given resolution and radius and no noise layer.
    pub fn new(resolution: u32, radius_bits: u32) -> (settings: PlanetSettings)
        ensures
            settings.resolution == resolution,
            settings.radius_bits == radius_bits,
            settings.noise_filters@ == Seq::<NoiseSettings>::empty(),
    {
        PlanetSettings { resolution, radius_bits, noise_filters: Vec::new() }
    }

    /// The same settings with `layer` appended as the last noise layer.
    pub fn with_layer(self, layer: NoiseSettings) -> (settings: PlanetSettings)
        ensures
            settings.resolution == self.resolution,
            settings.radius_bits == self.radius_bits,
            settings.noise_filters@ == self.noise_filters@.push(layer),
    {
        let mut settings = self;
        settings.noise_filters.push(layer);
        settings
    }

    /// Settings of the overlay that is drawn over this planet: a sphere of the
    /// same radius with `layer` as its only noise layer, at `resolution` if one
    /// is configured and at the planet's own resolution if none is.
    pub fn overlay(&self, layer: NoiseSettings, resolution: Option<u32>) -> (settings:
        PlanetSettings)
        ensures
            settings.resolution == (match resolution {
                Some(r) => r,
                None => self.resolution,
            }),
            settings.radius_bits == self.radius_bits,
            settings.noise_filters@ == seq![layer],
    {
        let resolution = match resolution {
            Some(r) => r,
            None => self.resolution,
        };
        let mut noise_filters: Vec<NoiseSettings> = Vec::new();
        noise_filters.push(layer);
        PlanetSettings { resolution, radius_bits: self.radius_bits, noise_filters }
    }

    /// Checks the settings before any mesh work: `Ok` exactly if the
    /// resolution lies in `MIN_RESOLUTION ..= MAX_RESOLUTION` and the radius is
    /// positive, otherwise the first violated rule.
    pub fn validate(&self) -> (result: Result<(), SettingsError>)
        ensures
            match result {
                Ok(()) => self.spec_validate() is None,
                Err(e) => self.spec_validate() == Some(e),
            },
    {
        if self.resolution < MIN_RESOLUTION {
            Err(SettingsError::ResolutionTooSmall)
        } else if self.resolution > MAX_RESOLUTION {
            Err(SettingsError::ResolutionTooLarge)
        } else if self.radius_bits == 0 || self.radius_bits > POSITIVE_INFINITY_BITS {
            Err(SettingsError::RadiusNotPositive)
        } else {
            Ok(())
        }
    }

    /// How the layer at place `layer` enters the elevation, `None` if there is
    /// no such layer.
    pub fn blend(&self, layer: usize) -> (result: Option<Blend>)
        ensures
            layer < self.noise_filters@.len() ==> result == Some(
                blend_of(self.mask_flags(), layer as int),
            ),
            layer >= self.noise_filters@.len() ==> result is None,
    {
        if layer >= self.noise_filters.len() {
            None
        } else if layer > 0 && self.noise_filters[layer].use_first_layer_as_mask {
            Some(Blend::MaskedByFirst)
        } else {
            Some(Blend::Full)
        }
    }

    /// The blends of all layers, in the order in which the layers are
    /// evaluated: one entry per layer.
    pub fn blend_plan(&self) -> (plan: Vec<Blend>)
        ensures
            plan@ == self.spec_blend_plan(),
    {
        let mut plan: Vec<Blend> = Vec::new();
        let mut i: usize = 0;
        while i < self.noise_filters.len()
            invariant
                i <= self.noise_filters@.len(),
                plan@.len() == i,
                forall|j: int| 0 <= j < i ==> plan@[j] == blend_of(self.mask_flags(), j),
            decreases self.noise_filters@.len() - i,
        {
            let blend = if i > 0 && self.noise_filters[i].use_first_layer_as_mask {
                Blend::MaskedByFirst
            } else {
                Blend::Full
            };
            plan.push(blend);
            i += 1;
        }
        assert(plan@ =~= self.spec_blend_plan());
        plan
    }
}

impl Default for PlanetSettings {
    /// A planet of resolution `DEFAULT_RESOLUTION` and radius two without any
    /// noise layer: a plain sphere.
    fn default() -> (settings: PlanetSettings)
        ensures
            settings.resolution == DEFAULT_RESOLUTION,
            settings.radius_bits == DEFAULT_RADIUS_BITS,
            settings.noise_filters@ == Seq::<NoiseSettings>::empty(),
    {
        PlanetSettings {
            resolution: DEFAULT_RESOLUTION,
            radius_bits: DEFAULT_RADIUS_BITS,
            noise_filters: Vec::new(),
        }
    }
}

/// The mask is positional: the first layer enters in full whatever its own
/// flag says, and a later layer is masked exactly if its flag is set.
pub proof fn lemma_first_layer_is_the_mask(settings: PlanetSettings, i: int)
    requires
        0 <= i < settings.noise_filters@.len(),
    ensures
        settings.spec_blend_plan().len() == settings.noise_filters@.len(),
        settings.spec_blend_plan()[0] == Blend::Full,
        i > 0 ==> (settings.spec_blend_plan()[i] == Blend::MaskedByFirst
            <==> settings.noise_filters@[i].use_first_layer_as_mask),
{
}

/// Appending a layer leaves the blend of every earlier layer as it was and
/// adds the blend of the new one: the order of the layers is kept.
pub proof fn lemma_with_layer_extends_plan(
    before: PlanetSettings,
    after: PlanetSettings,
    layer: NoiseSettings,
)
    requires
        after.noise_filters@ == before.noise_filters@.push(layer),
    ensures
        after.spec_blend_plan() == before.spec_blend_plan().push(
            if before.noise_filters@.len() > 0 && layer.use_first_layer_as_mask {
                Blend::MaskedByFirst
            } else {
                Blend::Full
            },
        ),
{
    let n = before.noise_filters@.len() as int;
    let extended = before.spec_blend_plan().push(
        if n > 0 && layer.use_first_layer_as_mask {
            Blend::MaskedByFirst
        } else {
            Blend::Full
        },
    );
    assert(after.spec_blend_plan().len() == extended.len());
    assert forall|i: int| 0 <= i < extended.len() implies after.spec_blend_plan()[i]
        == extended[i] by {
        if i < n {
            assert(after.noise_filters@[i] == before.noise_filters@[i]);
            assert(after.mask_flags()[i] == before.mask_flags()[i]);
        } else {
            assert(after.noise_filters@[i] == layer);
        }
    }
    assert(after.spec_blend_plan() =~= extended);
}

/// Which settings are valid: exactly those whose resolution lies in
/// `MIN_RESOLUTION ..= MAX_RESOLUTION` and whose radius is positive. The
/// noise layers never make settings invalid; an empty list is a plain sphere.
pub proof fn lemma_valid_settings(settings: PlanetSettings)
    ensures
        settings.spec_validate() is None <==> (MIN_RESOLUTION <= settings.resolution
            <= MAX_RESOLUTION && radius_is_positive(settings.radius_bits)),
        settings.resolution < MIN_RESOLUTION ==> settings.spec_validate() == Some(
            SettingsError::ResolutionTooSmall,
        ),
{
}

} // verus!
