//! Channel layouts: an ordered list of channel identities, with the
//! engine's table of built-in layouts and the operations on layouts that
//! device negotiation relies on.

use vstd::prelude::*;

use crate::channels::ChannelId;
use crate::channels::ChannelLayoutId;
use crate::channels::code_of_layout_id;
use crate::channels::layout_id_of_code;
use crate::channels::lemma_layout_id_code_round_trip;

verus! {

/// A channel layout: a number of channels and the identity of each, in
/// order. The name is for display only; two layouts are equal exactly when
/// their channel lists are equal, whatever their names say.
#[derive(Debug)]
pub struct ChannelLayout {
    /// The display name of the layout, mostly useful when enumerating the
    /// built-in layouts.
    pub name: String,
    /// The channels, in order. Order is significant.
    pub channels: Vec<ChannelId>,
}

/// The channel list of a built-in layout, as the engine's table gives it.
pub open spec fn builtin_channels(id: ChannelLayoutId) -> Seq<ChannelId> {
    match id {
        ChannelLayoutId::Mono => seq![ChannelId::FrontCenter],
        ChannelLayoutId::Stereo => seq![ChannelId::FrontLeft, ChannelId::FrontRight],
        ChannelLayoutId::C2Point1 => seq![ChannelId::FrontLeft, ChannelId::FrontRight, ChannelId::Lfe],
        ChannelLayoutId::C3Point0 => seq![ChannelId::FrontLeft, ChannelId::FrontRight, ChannelId::FrontCenter],
        ChannelLayoutId::C3Point0Back => seq![ChannelId::FrontLeft, ChannelId::FrontRight, ChannelId::BackCenter],
        ChannelLayoutId::C3Point1 => seq![ChannelId::FrontLeft, ChannelId::FrontRight, ChannelId::FrontCenter, ChannelId::Lfe],
        ChannelLayoutId::C4Point0 => seq![ChannelId::FrontLeft, ChannelId::FrontRight, ChannelId::FrontCenter, ChannelId::BackCenter],
        ChannelLayoutId::Quad => seq![ChannelId::FrontLeft, ChannelId::FrontRight, ChannelId::BackLeft, ChannelId::BackRight],
        ChannelLayoutId::QuadSide => seq![ChannelId::FrontLeft, ChannelId::FrontRight, ChannelId::SideLeft, ChannelId::SideRight],
        ChannelLayoutId::C4Point1 => seq![ChannelId::FrontLeft, ChannelId::FrontRight, ChannelId::FrontCenter, ChannelId::BackCenter, ChannelId::Lfe],
        ChannelLayoutId::C5Point0Back => seq![ChannelId::FrontLeft, ChannelId::FrontRight, ChannelId::FrontCenter, ChannelId::BackLeft, ChannelId::BackRight],
        ChannelLayoutId::C5Point0Side => seq![ChannelId::FrontLeft, ChannelId::FrontRight, ChannelId::FrontCenter, ChannelId::SideLeft, ChannelId::SideRight],
        ChannelLayoutId::C5Point1 => seq![ChannelId::FrontLeft, ChannelId::FrontRight, ChannelId::FrontCenter, ChannelId::SideLeft, ChannelId::SideRight, ChannelId::Lfe],
        ChannelLayoutId::C5Point1Back => seq![ChannelId::FrontLeft, ChannelId::FrontRight, ChannelId::FrontCenter, ChannelId::BackLeft, ChannelId::BackRight, ChannelId::Lfe],
        ChannelLayoutId::C6Point0Side => seq![ChannelId::FrontLeft, ChannelId::FrontRight, ChannelId::FrontCenter, ChannelId::SideLeft, ChannelId::SideRight, ChannelId::BackCenter],
        ChannelLayoutId::C6Point0Front => seq![ChannelId::FrontLeft, ChannelId::FrontRight, ChannelId::SideLeft, ChannelId::SideRight, ChannelId::FrontLeftCenter, ChannelId::FrontRightCenter],
        ChannelLayoutId::Hexagonal => seq![ChannelId::FrontLeft, ChannelId::FrontRight, ChannelId::FrontCenter, ChannelId::BackLeft, ChannelId::BackRight, ChannelId::BackCenter],
        ChannelLayoutId::C6Point1 => seq![ChannelId::FrontLeft, ChannelId::FrontRight, ChannelId::FrontCenter, ChannelId::SideLeft, ChannelId::SideRight, ChannelId::BackCenter, ChannelId::Lfe],
        ChannelLayoutId::C6Point1Back => seq![ChannelId::FrontLeft, ChannelId::FrontRight, ChannelId::FrontCenter, ChannelId::BackLeft, ChannelId::BackRight, ChannelId::BackCenter, ChannelId::Lfe],
        ChannelLayoutId::C6Point1Front => seq![ChannelId::FrontLeft, ChannelId::FrontRight, ChannelId::SideLeft, ChannelId::SideRight, ChannelId::FrontLeftCenter, ChannelId::FrontRightCenter, ChannelId::Lfe],
        ChannelLayoutId::C7Point0 => seq![ChannelId::FrontLeft, ChannelId::FrontRight, ChannelId::FrontCenter, ChannelId::SideLeft, ChannelId::SideRight, ChannelId::BackLeft, ChannelId::BackRight],
        ChannelLayoutId::C7Point0Front => seq![ChannelId::FrontLeft, ChannelId::FrontRight, ChannelId::FrontCenter, ChannelId::SideLeft, ChannelId::SideRight, ChannelId::FrontLeftCenter, ChannelId::FrontRightCenter],
        ChannelLayoutId::C7Point1 => seq![ChannelId::FrontLeft, ChannelId::FrontRight, ChannelId::FrontCenter, ChannelId::SideLeft, ChannelId::SideRight, ChannelId::BackLeft, ChannelId::BackRight, ChannelId::Lfe],
        ChannelLayoutId::C7Point1Wide => seq![ChannelId::FrontLeft, ChannelId::FrontRight, ChannelId::FrontCenter, ChannelId::SideLeft, ChannelId::SideRight, ChannelId::FrontLeftCenter, ChannelId::FrontRightCenter, ChannelId::Lfe],
        ChannelLayoutId::C7Point1WideBack => seq![ChannelId::FrontLeft, ChannelId::FrontRight, ChannelId::FrontCenter, ChannelId::BackLeft, ChannelId::BackRight, ChannelId::FrontLeftCenter, ChannelId::FrontRightCenter, ChannelId::Lfe],
        ChannelLayoutId::Octagonal => seq![ChannelId::FrontLeft, ChannelId::FrontRight, ChannelId::FrontCenter, ChannelId::SideLeft, ChannelId::SideRight, ChannelId::BackLeft, ChannelId::BackRight, ChannelId::BackCenter],
    }
}

/// The display name of a built-in layout, as the engine's table gives it.
pub open spec fn builtin_name(id: ChannelLayoutId) -> Seq<char> {
    match id {
        ChannelLayoutId::Mono => "Mono"@,
        ChannelLayoutId::Stereo => "Stereo"@,
        ChannelLayoutId::C2Point1 => "2.1"@,
        ChannelLayoutId::C3Point0 => "3.0"@,
        ChannelLayoutId::C3Point0Back => "3.0 (back)"@,
        ChannelLayoutId::C3Point1 => "3.1"@,
        ChannelLayoutId::C4Point0 => "4.0"@,
        ChannelLayoutId::Quad => "Quad"@,
        ChannelLayoutId::QuadSide => "Quad (side)"@,
        ChannelLayoutId::C4Point1 => "4.1"@,
        ChannelLayoutId::C5Point0Back => "5.0 (back)"@,
        ChannelLayoutId::C5Point0Side => "5.0 (side)"@,
        ChannelLayoutId::C5Point1 => "5.1"@,
        ChannelLayoutId::C5Point1Back => "5.1 (back)"@,
        ChannelLayoutId::C6Point0Side => "6.0 (side)"@,
        ChannelLayoutId::C6Point0Front => "6.0 (front)"@,
        ChannelLayoutId::Hexagonal => "Hexagonal"@,
        ChannelLayoutId::C6Point1 => "6.1"@,
        ChannelLayoutId::C6Point1Back => "6.1 (back)"@,
        ChannelLayoutId::C6Point1Front => "6.1 (front)"@,
        ChannelLayoutId::C7Point0 => "7.0"@,
        ChannelLayoutId::C7Point0Front => "7.0 (front)"@,
        ChannelLayoutId::C7Point1 => "7.1"@,
        ChannelLayoutId::C7Point1Wide => "7.1 (wide)"@,
        ChannelLayoutId::C7Point1WideBack => "7.1 (wide) (back)"@,
        ChannelLayoutId::Octagonal => "Octagonal"@,
    }
}

/// Two layouts are interchangeable exactly when their channel lists agree;
/// names are ignored.
pub open spec fn layout_eq(a: ChannelLayout, b: ChannelLayout) -> bool {
    a.channels@ == b.channels@
}

/// Whether a sequence of layouts holds one interchangeable with `l`.
pub open spec fn contains_layout(s: Seq<ChannelLayout>, l: ChannelLayout) -> bool {
    exists|j: int| 0 <= j < s.len() && layout_eq(s[j], l)
}

/// Element-wise equality of two channel lists.
pub fn channels_equal(a: &Vec<ChannelId>, b: &Vec<ChannelId>) -> (r: bool)
    ensures
        r == (a@ == b@),
{
    if a.len() != b.len() {
        assert(a@ != b@);
        return false;
    }
    let n = a.len();
    let mut i: usize = 0;
    while i < n
        invariant
            n == a@.len() == b@.len(),
            0 <= i <= n,
            forall|k: int| 0 <= k < i ==> a@[k] == b@[k],
        decreases n - i,
    {
        if a[i] != b[i] {
            return false;
        }
        i += 1;
    }
    proof {
        assert(a@ =~= b@);
    }
    true
}

impl Clone for ChannelLayout {
    /// Cloning keeps both the name and the channel list.
    fn clone(&self) -> (r: Self)
        ensures
            r.name@ == self.name@,
            r.channels@ == self.channels@,
    {
        let channels = self.channels.clone();
        proof {
            assert(channels@ =~= self.channels@);
        }
        ChannelLayout { name: self.name.clone(), channels }
    }
}

impl PartialEq for ChannelLayout {
    /// Layout equality compares the channel lists and ignores the names.
    fn eq(&self, other: &ChannelLayout) -> bool {
        channels_equal(&self.channels, &other.channels)
    }
}

impl Eq for ChannelLayout {

}

impl vstd::std_specs::cmp::PartialEqSpecImpl for ChannelLayout {
    open spec fn obeys_eq_spec() -> bool {
        true
    }

    open spec fn eq_spec(&self, other: &ChannelLayout) -> bool {
        layout_eq(*self, *other)
    }
}

/// The built-in layout a given channel count defaults to.
pub open spec fn default_layout_id(channel_count: int) -> ChannelLayoutId {
    if channel_count == 1 {
        ChannelLayoutId::Mono
    } else if channel_count == 2 {
        ChannelLayoutId::Stereo
    } else if channel_count == 3 {
        ChannelLayoutId::C3Point0
    } else if channel_count == 4 {
        ChannelLayoutId::C4Point0
    } else if channel_count == 5 {
        ChannelLayoutId::C5Point0Back
    } else if channel_count == 6 {
        ChannelLayoutId::C5Point1Back
    } else if channel_count == 7 {
        ChannelLayoutId::C6Point1
    } else {
        ChannelLayoutId::C7Point1
    }
}

impl ChannelLayout {
    /// Get one built-in layout from the engine's table.
    pub fn get_builtin(id: ChannelLayoutId) -> (r: ChannelLayout)
        ensures
            r.channels@ == builtin_channels(id),
            r.name@ == builtin_name(id),
    {
        let r = match id {
            ChannelLayoutId::Mono => ChannelLayout {
                name: "Mono".to_owned(),
                channels: vec![ChannelId::FrontCenter],
            },
            ChannelLayoutId::Stereo => ChannelLayout {
                name: "Stereo".to_owned(),
                channels: vec![ChannelId::FrontLeft, ChannelId::FrontRight],
            },
            ChannelLayoutId::C2Point1 => ChannelLayout {
                name: "2.1".to_owned(),
                channels: vec![ChannelId::FrontLeft, ChannelId::FrontRight, ChannelId::Lfe],
            },
            ChannelLayoutId::C3Point0 => ChannelLayout {
                name: "3.0".to_owned(),
                channels: vec![ChannelId::FrontLeft, ChannelId::FrontRight, ChannelId::FrontCenter],
            },
            ChannelLayoutId::C3Point0Back => ChannelLayout {
                name: "3.0 (back)".to_owned(),
                channels: vec![ChannelId::FrontLeft, ChannelId::FrontRight, ChannelId::BackCenter],
            },
            ChannelLayoutId::C3Point1 => ChannelLayout {
                name: "3.1".to_owned(),
                channels: vec![ChannelId::FrontLeft, ChannelId::FrontRight, ChannelId::FrontCenter, ChannelId::Lfe],
            },
            ChannelLayoutId::C4Point0 => ChannelLayout {
                name: "4.0".to_owned(),
                channels: vec![ChannelId::FrontLeft, ChannelId::FrontRight, ChannelId::FrontCenter, ChannelId::BackCenter],
            },
            ChannelLayoutId::Quad => ChannelLayout {
                name: "Quad".to_owned(),
                channels: vec![ChannelId::FrontLeft, ChannelId::FrontRight, ChannelId::BackLeft, ChannelId::BackRight],
            },
            ChannelLayoutId::QuadSide => ChannelLayout {
                name: "Quad (side)".to_owned(),
                channels: vec![ChannelId::FrontLeft, ChannelId::FrontRight, ChannelId::SideLeft, ChannelId::SideRight],
            },
            ChannelLayoutId::C4Point1 => ChannelLayout {
                name: "4.1".to_owned(),
                channels: vec![ChannelId::FrontLeft, ChannelId::FrontRight, ChannelId::FrontCenter, ChannelId::BackCenter, ChannelId::Lfe],
            },
            ChannelLayoutId::C5Point0Back => ChannelLayout {
                name: "5.0 (back)".to_owned(),
                channels: vec![ChannelId::FrontLeft, ChannelId::FrontRight, ChannelId::FrontCenter, ChannelId::BackLeft, ChannelId::BackRight],
            },
            ChannelLayoutId::C5Point0Side => ChannelLayout {
                name: "5.0 (side)".to_owned(),
                channels: vec![ChannelId::FrontLeft, ChannelId::FrontRight, ChannelId::FrontCenter, ChannelId::SideLeft, ChannelId::SideRight],
            },
            ChannelLayoutId::C5Point1 => ChannelLayout {
                name: "5.1".to_owned(),
                channels: vec![ChannelId::FrontLeft, ChannelId::FrontRight, ChannelId::FrontCenter, ChannelId::SideLeft, ChannelId::SideRight, ChannelId::Lfe],
            },
            ChannelLayoutId::C5Point1Back => ChannelLayout {
                name: "5.1 (back)".to_owned(),
                channels: vec![ChannelId::FrontLeft, ChannelId::FrontRight, ChannelId::FrontCenter, ChannelId::BackLeft, ChannelId::BackRight, ChannelId::Lfe],
            },
            ChannelLayoutId::C6Point0Side => ChannelLayout {
                name: "6.0 (side)".to_owned(),
                channels: vec![ChannelId::FrontLeft, ChannelId::FrontRight, ChannelId::FrontCenter, ChannelId::SideLeft, ChannelId::SideRight, ChannelId::BackCenter],
            },
            ChannelLayoutId::C6Point0Front => ChannelLayout {
                name: "6.0 (front)".to_owned(),
                channels: vec![ChannelId::FrontLeft, ChannelId::FrontRight, ChannelId::SideLeft, ChannelId::SideRight, ChannelId::FrontLeftCenter, ChannelId::FrontRightCenter],
            },
            ChannelLayoutId::Hexagonal => ChannelLayout {
                name: "Hexagonal".to_owned(),
                channels: vec![ChannelId::FrontLeft, ChannelId::FrontRight, ChannelId::FrontCenter, ChannelId::BackLeft, ChannelId::BackRight, ChannelId::BackCenter],
            },
            ChannelLayoutId::C6Point1 => ChannelLayout {
                name: "6.1".to_owned(),
                channels: vec![ChannelId::FrontLeft, ChannelId::FrontRight, ChannelId::FrontCenter, ChannelId::SideLeft, ChannelId::SideRight, ChannelId::BackCenter, ChannelId::Lfe],
            },
            ChannelLayoutId::C6Point1Back => ChannelLayout {
                name: "6.1 (back)".to_owned(),
                channels: vec![ChannelId::FrontLeft, ChannelId::FrontRight, ChannelId::FrontCenter, ChannelId::BackLeft, ChannelId::BackRight, ChannelId::BackCenter, ChannelId::Lfe],
            },
            ChannelLayoutId::C6Point1Front => ChannelLayout {
                name: "6.1 (front)".to_owned(),
                channels: vec![ChannelId::FrontLeft, ChannelId::FrontRight, ChannelId::SideLeft, ChannelId::SideRight, ChannelId::FrontLeftCenter, ChannelId::FrontRightCenter, ChannelId::Lfe],
            },
            ChannelLayoutId::C7Point0 => ChannelLayout {
                name: "7.0".to_owned(),
                channels: vec![ChannelId::FrontLeft, ChannelId::FrontRight, ChannelId::FrontCenter, ChannelId::SideLeft, ChannelId::SideRight, ChannelId::BackLeft, ChannelId::BackRight],
            },
            ChannelLayoutId::C7Point0Front => ChannelLayout {
                name: "7.0 (front)".to_owned(),
                channels: vec![ChannelId::FrontLeft, ChannelId::FrontRight, ChannelId::FrontCenter, ChannelId::SideLeft, ChannelId::SideRight, ChannelId::FrontLeftCenter, ChannelId::FrontRightCenter],
            },
            ChannelLayoutId::C7Point1 => ChannelLayout {
                name: "7.1".to_owned(),
                channels: vec![ChannelId::FrontLeft, ChannelId::FrontRight, ChannelId::FrontCenter, ChannelId::SideLeft, ChannelId::SideRight, ChannelId::BackLeft, ChannelId::BackRight, ChannelId::Lfe],
            },
            ChannelLayoutId::C7Point1Wide => ChannelLayout {
                name: "7.1 (wide)".to_owned(),
                channels: vec![ChannelId::FrontLeft, ChannelId::FrontRight, ChannelId::FrontCenter, ChannelId::SideLeft, ChannelId::SideRight, ChannelId::FrontLeftCenter, ChannelId::FrontRightCenter, ChannelId::Lfe],
            },
            ChannelLayoutId::C7Point1WideBack => ChannelLayout {
                name: "7.1 (wide) (back)".to_owned(),
                channels: vec![ChannelId::FrontLeft, ChannelId::FrontRight, ChannelId::FrontCenter, ChannelId::BackLeft, ChannelId::BackRight, ChannelId::FrontLeftCenter, ChannelId::FrontRightCenter, ChannelId::Lfe],
            },
            ChannelLayoutId::Octagonal => ChannelLayout {
                name: "Octagonal".to_owned(),
                channels: vec![ChannelId::FrontLeft, ChannelId::FrontRight, ChannelId::FrontCenter, ChannelId::SideLeft, ChannelId::SideRight, ChannelId::BackLeft, ChannelId::BackRight, ChannelId::BackCenter],
            },
        };
        proof {
            assert(r.channels@ =~= builtin_channels(id));
        }
        r
    }

    /// Get all of the built-in layouts, in the engine's table order.
    pub fn get_all_builtin() -> (r: Vec<ChannelLayout>)
        ensures
            r@.len() == 26,
            forall|k: int|
                0 <= k < 26 ==> (#[trigger] r@[k]).channels@ == builtin_channels(
                    layout_id_of_code(k),
                ) && r@[k].name@ == builtin_name(layout_id_of_code(k)),
    {
        let mut layouts: Vec<ChannelLayout> = Vec::new();
        let mut code: i32 = 0;
        while code < 26
            invariant
                0 <= code <= 26,
                layouts@.len() == code,
                forall|k: int|
                    0 <= k < code ==> (#[trigger] layouts@[k]).channels@ == builtin_channels(
                        layout_id_of_code(k),
                    ) && layouts@[k].name@ == builtin_name(layout_id_of_code(k)),
            decreases 26 - code,
        {
            layouts.push(ChannelLayout::get_builtin(ChannelLayoutId::from_native(code)));
            code = code + 1;
        }
        layouts
    }

    /// The default layout for the given number of channels, out of the
    /// engine's table. Every count from 1 to 8 has one; its channel count is
    /// the requested count.
    pub fn get_default(channel_count: i32) -> (r: ChannelLayout)
        requires
            1 <= channel_count <= 8,
        ensures
            r.channels@ == builtin_channels(default_layout_id(channel_count as int)),
            r.name@ == builtin_name(default_layout_id(channel_count as int)),
            r.channels@.len() == channel_count,
    {
        let id = if channel_count == 1 {
            ChannelLayoutId::Mono
        } else if channel_count == 2 {
            ChannelLayoutId::Stereo
        } else if channel_count == 3 {
            ChannelLayoutId::C3Point0
        } else if channel_count == 4 {
            ChannelLayoutId::C4Point0
        } else if channel_count == 5 {
            ChannelLayoutId::C5Point0Back
        } else if channel_count == 6 {
            ChannelLayoutId::C5Point1Back
        } else if channel_count == 7 {
            ChannelLayoutId::C6Point1
        } else {
            ChannelLayoutId::C7Point1
        };
        ChannelLayout::get_builtin(id)
    }

    /// Whether `available` holds a layout interchangeable with `needle`.
    pub fn contains_matching(available: &Vec<ChannelLayout>, needle: &ChannelLayout) -> (r: bool)
        ensures
            r == contains_layout(available@, *needle),
    {
        let n = available.len();
        let mut i: usize = 0;
        while i < n
            invariant
                n == available@.len(),
                0 <= i <= n,
                forall|j: int| 0 <= j < i ==> !layout_eq(available@[j], *needle),
            decreases n - i,
        {
            if channels_equal(&available[i].channels, &needle.channels) {
                return true;
            }
            i += 1;
        }
        false
    }

    /// The first layout of `preferred_layouts` that matches (by channel
    /// list) one of `available_layouts`, or `None` when none matches.
    pub fn best_matching_channel_layout(
        preferred_layouts: &Vec<ChannelLayout>,
        available_layouts: &Vec<ChannelLayout>,
    ) -> (r: Option<ChannelLayout>)
        ensures
            match r {
                Some(l) => exists|i: int|
                    0 <= i < preferred_layouts@.len() && l.channels@ == (
                    #[trigger] preferred_layouts@[i]).channels@ && l.name@
                        == preferred_layouts@[i].name@ && contains_layout(
                        available_layouts@,
                        preferred_layouts@[i],
                    ) && (forall|j: int|
                        0 <= j < i ==> !contains_layout(
                            available_layouts@,
                            #[trigger] preferred_layouts@[j],
                        )),
                None => forall|i: int|
                    0 <= i < preferred_layouts@.len() ==> !contains_layout(
                        available_layouts@,
                        #[trigger] preferred_layouts@[i],
                    ),
            },
    {
        let n = preferred_layouts.len();
        let mut i: usize = 0;
        while i < n
            invariant
                n == preferred_layouts@.len(),
                0 <= i <= n,
                forall|j: int|
                    0 <= j < i ==> !contains_layout(
                        available_layouts@,
                        #[trigger] preferred_layouts@[j],
                    ),
            decreases n - i,
        {
            if ChannelLayout::contains_matching(available_layouts, &preferred_layouts[i]) {
                return Some(preferred_layouts[i].clone());
            }
            i += 1;
        }
        None
    }

    /// The index of the first occurrence of `channel` in this layout, or
    /// `None` when the layout does not hold it.
    pub fn find_channel(&self, channel: ChannelId) -> (r: Option<usize>)
        ensures
            match r {
                Some(i) => 0 <= i < self.channels@.len() && self.channels@[i as int] == channel
                    && (forall|j: int| 0 <= j < i ==> self.channels@[j] != channel),
                None => forall|j: int| 0 <= j < self.channels@.len() ==> self.channels@[j] != channel,
            },
    {
        let n = self.channels.len();
        let mut i: usize = 0;
        while i < n
            invariant
                n == self.channels@.len(),
                0 <= i <= n,
                forall|j: int| 0 <= j < i ==> self.channels@[j] != channel,
            decreases n - i,
        {
            if self.channels[i] == channel {
                return Some(i);
            }
            i += 1;
        }
        None
    }

    /// If the channel list matches one of the engine's built-in layouts,
    /// take over that layout's name and report success; otherwise leave the
    /// layout untouched.
    pub fn detect_builtin(&mut self) -> (r: bool)
        ensures
            final(self).channels@ == old(self).channels@,
            r == exists|id: ChannelLayoutId| #[trigger] builtin_channels(id) == old(self).channels@,
            r ==> exists|id: ChannelLayoutId| #[trigger] builtin_channels(id) == old(
                self,
            ).channels@ && final(self).name@ == builtin_name(id),
            !r ==> final(self).name@ == old(self).name@,
    {
        let mut code: i32 = 0;
        while code < 26
            invariant
                0 <= code <= 26,
                self == old(self),
                forall|k: int|
                    0 <= k < code ==> builtin_channels(#[trigger] layout_id_of_code(k)) != self.channels@,
            decreases 26 - code,
        {
            let id = ChannelLayoutId::from_native(code);
            let builtin = ChannelLayout::get_builtin(id);
            if channels_equal(&self.channels, &builtin.channels) {
                self.name = builtin.name;
                return true;
            }
            code = code + 1;
        }
        proof {
            assert forall|id: ChannelLayoutId| #[trigger] builtin_channels(id)
                != self.channels@ by {
                lemma_layout_id_code_round_trip(id);
                assert(builtin_channels(layout_id_of_code(code_of_layout_id(id)))
                    != self.channels@);
            }
        }
        false
    }

    /// Sort layouts by channel count, descending. Only the number of
    /// channels is significant; the contents and names ride along, and the
    /// collection keeps exactly the layouts it had.
    pub fn sort(layouts: &mut Vec<ChannelLayout>)
        ensures
            final(layouts)@.len() == old(layouts)@.len(),
            final(layouts)@.to_multiset() == old(layouts)@.to_multiset(),
            forall|i: int, j: int|
                0 <= i < j < final(layouts)@.len() ==> (#[trigger] final(layouts)@[i]).channels@.len()
                    >= (#[trigger] final(layouts)@[j]).channels@.len(),
    {
        sort_by_channel_count(layouts, false);
    }
}

/// Whether `s` is ordered by channel count: ascending when `ascending`,
/// descending otherwise.
pub open spec fn ordered_by_channel_count(s: Seq<ChannelLayout>, ascending: bool) -> bool {
    forall|i: int, j: int|
        0 <= i < j < s.len() ==> if ascending {
            (#[trigger] s[i]).channels@.len() <= (#[trigger] s[j]).channels@.len()
        } else {
            (#[trigger] s[i]).channels@.len() >= (#[trigger] s[j]).channels@.len()
        }
}

/// Insertion sort of layouts by channel count, in either direction. The
/// result holds exactly the layouts of the input.
pub fn sort_by_channel_count(layouts: &mut Vec<ChannelLayout>, ascending: bool)
    ensures
        final(layouts)@.len() == old(layouts)@.len(),
        final(layouts)@.to_multiset() == old(layouts)@.to_multiset(),
        ordered_by_channel_count(final(layouts)@, ascending),
{
    broadcast use vstd::seq_lib::group_to_multiset_ensures;
    broadcast use vstd::multiset::group_multiset_axioms;

    let ghost orig = layouts@;
    let n = layouts.len();
    let mut i: usize = 1;
    if n < 2 {
        return;
    }
    while i < n
        invariant
            1 <= i <= n,
            n == layouts@.len(),
            layouts@.to_multiset() == orig.to_multiset(),
            ordered_by_channel_count(layouts@.subrange(0, i as int), ascending),
        decreases n - i,
    {
        let ghost before = layouts@;
        let x = layouts.remove(i);
        let mut j: usize = 0;
        while j < i && keeps_order(&layouts[j], &x, ascending)
            invariant
                0 <= j <= i < n,
                layouts@.len() == n - 1,
                forall|k: int|
                    0 <= k < j ==> if ascending {
                        (#[trigger] layouts@[k]).channels@.len() <= x.channels@.len()
                    } else {
                        (#[trigger] layouts@[k]).channels@.len() >= x.channels@.len()
                    },
            decreases i - j,
        {
            j += 1;
        }
        layouts.insert(j, x);
        proof {
            let s = before;
            let t = layouts@;
            let y = s[i as int];
            assert(t == s.remove(i as int).insert(j as int, y));
            vstd::seq_lib::to_multiset_remove(s, i as int);
            vstd::seq_lib::to_multiset_insert(s.remove(i as int), j as int, y);
            vstd::seq_lib::to_multiset_contains(s, y);
            assert(s.contains(y));
            assert(s.to_multiset().count(y) > 0);
            assert(s.to_multiset().remove(y).insert(y) =~= s.to_multiset());
            assert(t.to_multiset() =~= s.to_multiset());
            assert(ordered_by_channel_count(t.subrange(0, i as int + 1), ascending)) by {
                let p = s.subrange(0, i as int);
                assert forall|a: int, b: int|
                    0 <= a < b < i + 1 implies if ascending {
                    (#[trigger] t.subrange(0, i as int + 1)[a]).channels@.len() <= (#[trigger] t.subrange(
                        0,
                        i as int + 1,
                    )[b]).channels@.len()
                } else {
                    (#[trigger] t.subrange(0, i as int + 1)[a]).channels@.len() >= (#[trigger] t.subrange(
                        0,
                        i as int + 1,
                    )[b]).channels@.len()
                } by {
                    assert(ordered_by_channel_count(p, ascending));
                }
            }
        }
        i += 1;
    }
    proof {
        assert(layouts@.subrange(0, n as int) =~= layouts@);
    }
}

/// In an ascending sort an element stays before `x` when its channel count
/// is at most `x`'s; in a descending sort, when it is at least `x`'s.
fn keeps_order(a: &ChannelLayout, x: &ChannelLayout, ascending: bool) -> (r: bool)
    ensures
        r == if ascending {
            a.channels@.len() <= x.channels@.len()
        } else {
            a.channels@.len() >= x.channels@.len()
        },
{
    if ascending {
        a.channels.len() <= x.channels.len()
    } else {
        a.channels.len() >= x.channels.len()
    }
}

} // verus!
