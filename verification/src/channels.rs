//! The channel map: which of the interleaved channels of a pixel carry
//! colour, alpha, albedo and the world-space normal.

use vstd::prelude::*;

verus! {

/// The host's tag for 32-bit floating samples.
pub const FLOAT32: u32 = 1;

/// One channel as the host declares it: its name and the type of its samples.
#[derive(Debug)]
pub struct Format {
    pub name: String,
    pub type_: u32,
}

/// Where the channels that the driver knows by name stand in a pixel.
///
/// `rgb_index`, `albedo_index` and `normal_index` are the index of the first
/// of three channels.
#[derive(Clone, Copy, Debug, PartialEq, Eq, Structural)]
pub struct ChannelMap {
    pub rgb_index: Option<usize>,
    pub alpha_index: Option<usize>,
    pub albedo_index: Option<usize>,
    pub normal_index: Option<usize>,
}

impl ChannelMap {
    /// Every mapped index is the index of a channel of a pixel of `num_channels` channels.
    pub open spec fn inside(self, num_channels: nat) -> bool {
        &&& self.rgb_index matches Some(i) ==> i < num_channels
        &&& self.alpha_index matches Some(i) ==> i < num_channels
        &&& self.albedo_index matches Some(i) ==> i < num_channels
        &&& self.normal_index matches Some(i) ==> i < num_channels
    }

    /// Every mapped index is the index of a channel of a pixel of `num_channels` channels.
    pub fn is_inside(&self, num_channels: usize) -> (r: bool)
        ensures
            r == self.inside(num_channels as nat),
    {
        (match self.rgb_index {
            Some(i) => i < num_channels,
            None => true,
        }) && (match self.alpha_index {
            Some(i) => i < num_channels,
            None => true,
        }) && (match self.albedo_index {
            Some(i) => i < num_channels,
            None => true,
        }) && (match self.normal_index {
            Some(i) => i < num_channels,
            None => true,
        })
    }
}

/// The names of the declared channels, in order.
pub open spec fn format_names(format: Seq<Format>) -> Seq<Seq<char>> {
    Seq::new(format.len(), |i: int| format[i].name@)
}

/// The greatest index at which `name` stands in `names`.
pub open spec fn last_named(names: Seq<Seq<char>>, name: Seq<char>) -> Option<usize>
    decreases names.len(),
{
    if names.len() == 0 {
        None
    } else if names.last() == name {
        Some((names.len() - 1) as usize)
    } else {
        last_named(names.drop_last(), name)
    }
}

/// The channel map of the declared channels. Names are matched exactly.
pub open spec fn channel_map(names: Seq<Seq<char>>) -> ChannelMap {
    ChannelMap {
        rgb_index: last_named(names, "r"@),
        alpha_index: last_named(names, "a"@),
        albedo_index: last_named(names, "albedo.000.r"@),
        normal_index: last_named(names, "N_world.000.x"@),
    }
}

/// An index that `last_named` gives lies inside the sequence.
pub proof fn lemma_last_named_in_range(names: Seq<Seq<char>>, name: Seq<char>)
    requires
        names.len() <= usize::MAX,
    ensures
        match last_named(names, name) {
            Some(i) => i < names.len() && names[i as int] == name,
            None => forall|j: int| 0 <= j < names.len() ==> names[j] != name,
        },
    decreases names.len(),
{
    if names.len() > 0 && names.last() != name {
        let earlier = names.drop_last();
        lemma_last_named_in_range(earlier, name);
        assert(forall|j: int| 0 <= j < earlier.len() ==> earlier[j] == names[j]);
    }
}

/// Sets the sample type of every declared channel to 32-bit floating.
pub fn force_float32(format: &mut Vec<Format>)
    ensures
        final(format).len() == old(format).len(),
        forall|i: int|
            0 <= i < final(format).len() ==> (#[trigger] final(format)[i]).type_ == FLOAT32
                && final(format)[i].name == old(format)[i].name,
{
    let mut i: usize = 0;
    while i < format.len()
        invariant
            i <= format.len(),
            format.len() == old(format).len(),
            forall|j: int| 0 <= j < i ==> (#[trigger] format[j]).type_ == FLOAT32,
            forall|j: int| 0 <= j < format.len() ==> (#[trigger] format[j]).name == old(format)[j].name,
        decreases format.len() - i,
    {
        format[i].type_ = FLOAT32;
        i += 1;
    }
}

/// Finds the known channels among the declared ones.
pub fn map_channels(format: &Vec<Format>) -> (map: ChannelMap)
    ensures
        map == channel_map(format_names(format@)),
{
    let r = String::from_str("r");
    let a = String::from_str("a");
    let albedo = String::from_str("albedo.000.r");
    let normal = String::from_str("N_world.000.x");
    proof {
        reveal_strlit("r");
        reveal_strlit("a");
        reveal_strlit("albedo.000.r");
        reveal_strlit("N_world.000.x");
    }
    let mut map = ChannelMap {
        rgb_index: None,
        alpha_index: None,
        albedo_index: None,
        normal_index: None,
    };
    let ghost names = format_names(format@);
    let mut i: usize = 0;
    while i < format.len()
        invariant
            i <= format.len(),
            names == format_names(format@),
            r@ == "r"@,
            a@ == "a"@,
            albedo@ == "albedo.000.r"@,
            normal@ == "N_world.000.x"@,
            "r"@.len() == 1,
            "a"@.len() == 1,
            "r"@[0] != "a"@[0],
            "albedo.000.r"@.len() == 12,
            "N_world.000.x"@.len() == 13,
            map == channel_map(names.take(i as int)),
        decreases format.len() - i,
    {
        proof {
            assert(names.take(i + 1).drop_last() =~= names.take(i as int));
            assert(names.take(i + 1).last() == format[i as int].name@);
        }
        let name = &format[i].name;
        if *name == r {
            map.rgb_index = Some(i);
        } else if *name == a {
            map.alpha_index = Some(i);
        } else if *name == albedo {
            map.albedo_index = Some(i);
        } else if *name == normal {
            map.normal_index = Some(i);
        }
        i += 1;
    }
    proof {
        assert(names.take(i as int) =~= names);
    }
    map
}

} // verus!
