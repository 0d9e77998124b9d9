//! Engine configuration consumed at graph-build time.

use vstd::prelude::*;

verus! {

/// The options the graph and scheduler read while building: how many
/// shadow maps the shadow-mapper array holds, how many cascades the
/// directional shadow accumulator is specialized for, how many frames may
/// be in flight, the antialiasing sample count, and the shadow-map edge
/// size in pixels.
#[derive(Clone, Copy, PartialEq, Eq, Structural, Debug)]
pub struct Configurations {
    pub max_shadow_maps_count: u32,
    pub cascaded_shadows_count: u32,
    pub frames_in_flight: u32,
    pub samples_count: u32,
    pub shadow_map_aspect: u32,
}

impl Configurations {
    pub fn new(
        max_shadow_maps_count: u32,
        cascaded_shadows_count: u32,
        frames_in_flight: u32,
        samples_count: u32,
        shadow_map_aspect: u32,
    ) -> (r: Self)
        ensures
            r == (Configurations {
                max_shadow_maps_count,
                cascaded_shadows_count,
                frames_in_flight,
                samples_count,
                shadow_map_aspect,
            }),
    {
        Configurations {
            max_shadow_maps_count,
            cascaded_shadows_count,
            frames_in_flight,
            samples_count,
            shadow_map_aspect,
        }
    }

    pub fn get_max_shadow_maps_count(&self) -> (r: u32)
        ensures
            r == self.max_shadow_maps_count,
    {
        self.max_shadow_maps_count
    }

    pub fn get_cascaded_shadows_count(&self) -> (r: u32)
        ensures
            r == self.cascaded_shadows_count,
    {
        self.cascaded_shadows_count
    }

    pub fn get_frames_in_flight(&self) -> (r: u32)
        ensures
            r == self.frames_in_flight,
    {
        self.frames_in_flight
    }

    pub fn get_samples_count(&self) -> (r: u32)
        ensures
            r == self.samples_count,
    {
        self.samples_count
    }

    pub fn get_shadow_map_aspect(&self) -> (r: u32)
        ensures
            r == self.shadow_map_aspect,
    {
        self.shadow_map_aspect
    }
}

impl Default for Configurations {
    /// The defaults the engine starts with: six shadow maps, four cascades,
    /// two frames in flight, one sample, 1024-pixel shadow maps.
    fn default() -> (r: Self)
        ensures
            r == (Configurations {
                max_shadow_maps_count: 6u32,
                cascaded_shadows_count: 4u32,
                frames_in_flight: 2u32,
                samples_count: 1u32,
                shadow_map_aspect: 1024u32,
            }),
    {
        Configurations {
            max_shadow_maps_count: 6,
            cascaded_shadows_count: 4,
            frames_in_flight: 2,
            samples_count: 1,
            shadow_map_aspect: 1024,
        }
    }
}

} // verus!
