//! The rendered instances: an ordered, fixed-length list of poses, of which
//! the first is animated.

use vstd::prelude::*;
use crate::layout::MATRIX_SCALARS;

verus! {

/// The pose of one instance: where it stands and how it is turned. The
/// rotation is a quaternion `[x, y, z, w]`; the scale is always one.
#[derive(Clone, Copy, Debug, PartialEq)]
pub struct InstancePose<S> {
    pub translation: [S; 3],
    pub rotation: [S; 4],
}

/// The poses of all instances, in draw order. The list never changes its
/// length, and it is short enough for one draw call to cover it.
pub struct InstancePoses<S> {
    poses: Vec<InstancePose<S>>,
}

impl<S> View for InstancePoses<S> {
    type V = Seq<InstancePose<S>>;

    closed spec fn view(&self) -> Seq<InstancePose<S>> {
        self.poses@
    }
}

/// The list `before` with the rotation of its first entry replaced by
/// `rotation`; an empty list stays empty.
pub open spec fn animated<S>(before: Seq<InstancePose<S>>, rotation: [S; 4]) -> Seq<InstancePose<S>> {
    if before.len() == 0 {
        before
    } else {
        before.update(0, InstancePose { translation: before[0].translation, rotation })
    }
}

impl<S> InstancePoses<S> {
    #[verifier::type_invariant]
    spec fn fits_one_draw(self) -> bool {
        self.poses@.len() <= u32::MAX
    }
}

impl<S: Copy> InstancePoses<S> {
    /// Takes over `poses` as the list of instances. A list too long for one
    /// draw call to cover, one of more than `u32::MAX` entries, is refused.
    pub fn new(poses: Vec<InstancePose<S>>) -> (list: Option<InstancePoses<S>>)
        ensures
            poses@.len() <= u32::MAX ==> list is Some && list->0@ == poses@,
            poses@.len() > u32::MAX ==> list is None,
    {
        if poses.len() <= u32::MAX as usize {
            Some(InstancePoses { poses })
        } else {
            None
        }
    }

    /// The number of instances, as a draw call takes it.
    pub fn count(&self) -> (count: u32)
        ensures
            count == self@.len(),
    {
        proof {
            use_type_invariant(self);
        }
        self.poses.len() as u32
    }

    /// The poses, in draw order.
    pub fn as_slice(&self) -> (poses: &[InstancePose<S>])
        ensures
            poses@ == self@,
    {
        self.poses.as_slice()
    }

    /// Turns the first instance to `rotation`. Its translation, all other
    /// instances and the length of the list stay as they are.
    pub fn animate(&mut self, rotation: [S; 4])
        ensures
            final(self)@ == animated(old(self)@, rotation),
        no_unwind
    {
        proof {
            use_type_invariant(&*self);
        }
        if self.poses.len() > 0 {
            self.poses[0].rotation = rotation;
        }
    }
}

/// Where the default instances stand.
pub open spec fn default_translations() -> Seq<(i8, i8, i8)> {
    seq![(0i8, 0i8, 1i8), (1i8, 0i8, 2i8), (-1i8, 0i8, 2i8)]
}

/// The default instances, in integer coordinates: three, each at a place of
/// its own, none of them turned.
pub fn default_poses() -> (poses: [InstancePose<i8>; 3])
    ensures
        forall|i: int|
            #![trigger poses[i]]
            0 <= i < 3 ==> {
                let t = default_translations()[i];
                &&& poses[i].translation@ == seq![t.0, t.1, t.2]
                &&& poses[i].rotation@ == seq![0i8, 0i8, 0i8, 1i8]
            },
        forall|i: int, j: int|
            0 <= i < j < 3 ==> (#[trigger] poses[i]).translation@ != (#[trigger] poses[j]).translation@,
{
    let poses = [
        InstancePose { translation: [0, 0, 1], rotation: [0, 0, 0, 1] },
        InstancePose { translation: [1, 0, 2], rotation: [0, 0, 0, 1] },
        InstancePose { translation: [-1, 0, 2], rotation: [0, 0, 0, 1] },
    ];
    assert forall|i: int| #![trigger poses[i]] 0 <= i < 3 implies {
        let t = default_translations()[i];
        &&& poses[i].translation@ == seq![t.0, t.1, t.2]
        &&& poses[i].rotation@ == seq![0i8, 0i8, 0i8, 1i8]
    } by {
        let t = default_translations()[i];
        assert(poses[i].translation@ =~= seq![t.0, t.1, t.2]);
        assert(poses[i].rotation@ =~= seq![0i8, 0i8, 0i8, 1i8]);
    }
    assert forall|i: int, j: int| 0 <= i < j < 3 implies (#[trigger] poses[i]).translation@ != (
    #[trigger] poses[j]).translation@ by {
        assert(poses[0].translation@[0] == 0);
        assert(poses[1].translation@[0] == 1);
        assert(poses[2].translation@[0] == -1);
    }
    poses
}

/// The part of `data` that holds the transform of instance `index`.
pub open spec fn transform_of<S>(data: Seq<S>, index: int) -> Seq<S> {
    data.subrange(16 * index, 16 * index + 16)
}

/// Whether `transform` is what `to_columns` may return for `pose`.
pub open spec fn is_transform_of<S, F: Fn(&InstancePose<S>) -> [S; 16]>(
    to_columns: F,
    pose: InstancePose<S>,
    transform: Seq<S>,
) -> bool {
    exists|columns: [S; 16]| #[trigger] to_columns.ensures((&pose,), columns) && columns@ == transform
}

/// Serializes the instances' transforms into one contiguous run of scalars:
/// sixteen per instance, in draw order, each instance's run being what
/// `to_columns` returned for its pose, unchanged and in the order returned.
pub fn instance_poses_to_data<S: Copy, F: Fn(&InstancePose<S>) -> [S; 16]>(
    poses: &[InstancePose<S>],
    to_columns: F,
) -> (data: Vec<S>)
    requires
        forall|i: int| 0 <= i < poses@.len() ==> to_columns.requires((&#[trigger] poses@[i],)),
    ensures
        data@.len() == 16 * poses@.len(),
        forall|i: int|
            0 <= i < poses@.len() ==> is_transform_of(
                to_columns,
                #[trigger] poses@[i],
                transform_of(data@, i),
            ),
{
    let mut data: Vec<S> = Vec::new();
    let mut index: usize = 0;
    while index < poses.len()
        invariant
            index <= poses@.len(),
            data@.len() == 16 * index,
            forall|i: int| 0 <= i < poses@.len() ==> to_columns.requires((&#[trigger] poses@[i],)),
            forall|i: int|
                0 <= i < index ==> is_transform_of(
                    to_columns,
                    #[trigger] poses@[i],
                    transform_of(data@, i),
                ),
        decreases poses@.len() - index,
    {
        let columns: [S; 16] = to_columns(&poses[index]);
        let ghost before = data@;
        let mut scalar: usize = 0;
        while scalar < MATRIX_SCALARS
            invariant
                scalar <= 16,
                data@.len() == before.len() + scalar,
                data@.subrange(0, before.len() as int) == before,
                forall|j: int| 0 <= j < scalar ==> data@[before.len() + j] == columns@[j],
            decreases 16 - scalar,
        {
            data.push(columns[scalar]);
            scalar = scalar + 1;
        }
        proof {
            assert(transform_of(data@, index as int) =~= columns@);
            assert forall|i: int| 0 <= i < index implies is_transform_of(
                to_columns,
                #[trigger] poses@[i],
                transform_of(data@, i),
            ) by {
                assert(transform_of(data@, i) =~= transform_of(before, i));
            }
        }
        index = index + 1;
    }
    data
}

} // verus!
