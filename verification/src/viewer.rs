//! The drawings that the viewer shows.
//!
//! A drawing is registered in a pool and shown on every frame until its
//! guard stops it. The pool is a value that the caller keeps; serving the
//! frames to viewer clients is the caller's.
use crate::math::{Point2, Vec2};
use crate::world::{Robot, RobotData, TeamColor};
use std::collections::HashMap;
use vstd::prelude::*;

verus! {

broadcast use vstd::std_specs::hash::group_hash_axioms;

/// Port on which viewer clients are served.
pub const VIEWER_PORT: u16 = 8282;

/// Frames served to a viewer client each second.
pub const FRAMES_PER_SECOND: u32 = 60;

/// A shape that viewer clients can draw.
#[derive(Clone, Copy, Debug)]
pub enum ViewerObject {
    Robot { id: u8, color: TeamColor, has_ball: bool, pos: Point2, vel: Vec2 },
    Point { color: &'static str, pos: Point2 },
    Segment { color: &'static str, start: Point2, end: Point2 },
}

/// What is sent to each viewer client for one frame: the objects to draw.
#[derive(Clone, Debug)]
pub struct ViewerFrame {
    pub objects: Vec<ViewerObject>,
}

/// The drawings that are shown at present, each under the number of its
/// guard.
pub struct DrawingsPool {
    pub drawings: HashMap<usize, ViewerObject>,
}

/// Stands for a drawing while it is shown.
#[derive(Debug)]
pub struct ViewerObjectGuard {
    pub id: usize,
}

impl View for DrawingsPool {
    type V = Map<usize, ViewerObject>;

    open spec fn view(&self) -> Map<usize, ViewerObject> {
        self.drawings@
    }
}

/// Calls `rand::random::<usize>()`, which draws from the generator of the
/// thread. Each call draws a number anew, so nothing is stated of the
/// result. The call panics where the system cannot seed the generator.
#[verifier::external_body]
fn random_id() -> usize {
    rand::random::<usize>()
}

impl DrawingsPool {
    /// A pool without drawings.
    pub fn new() -> (pool: DrawingsPool)
        ensures
            pool@ == Map::<usize, ViewerObject>::empty(),
    {
        DrawingsPool { drawings: HashMap::new() }
    }
}

/// How many objects are shown at present.
pub fn to_be_drawn_objects_count(pool: &DrawingsPool) -> (count: usize)
    ensures
        count == pool@.len(),
{
    pool.drawings.len()
}

/// The frame to send now: every object of the pool once, in the order in
/// which the pool hands them out.
pub fn make_frame(pool: &DrawingsPool) -> (frame: ViewerFrame)
    ensures
        frame.objects@.to_set() == pool@.values(),
        frame.objects@.len() == pool@.len(),
{
    let mut objects: Vec<ViewerObject> = Vec::new();
    for object in it: pool.drawings.values()
        invariant
            it.seq().unref().to_set() == pool@.values(),
            it.seq().len() == pool@.dom().len(),
            objects@.len() == it.index(),
            forall|i: int| 0 <= i < objects@.len() ==> objects@[i] == *it.seq()[i],
            it.index() == it.seq().len() ==> objects@ == it.seq().unref(),
        ensures
            objects@.to_set() == pool@.values(),
            objects@.len() == pool@.len(),
    {
        objects.push(*object);
    }
    ViewerFrame { objects }
}

/// Has `o` shown from now on, under a number drawn at random. Where the
/// number is that of another drawing, `o` takes its place.
pub fn start_drawing(pool: &mut DrawingsPool, o: ViewerObject) -> (guard: ViewerObjectGuard)
    ensures
        final(pool)@ == old(pool)@.insert(guard.id, o),
{
    let uuid: usize = random_id();
    start_drawing_as(pool, uuid, o)
}

/// Has `o` shown from now on under the number `id`.
pub fn start_drawing_as(pool: &mut DrawingsPool, id: usize, o: ViewerObject) -> (guard:
    ViewerObjectGuard)
    ensures
        guard.id == id,
        final(pool)@ == old(pool)@.insert(id, o),
        !old(pool)@.contains_key(id) ==> final(pool)@.len() == old(pool)@.len() + 1,
        old(pool)@.contains_key(id) ==> final(pool)@.len() == old(pool)@.len(),
{
    pool.drawings.insert(id, o);
    ViewerObjectGuard { id }
}

impl ViewerObjectGuard {
    /// Shows `o` in place of what the guard stood for.
    pub fn update(&mut self, pool: &mut DrawingsPool, o: ViewerObject)
        ensures
            final(self).id == old(self).id,
            final(pool)@ == old(pool)@.insert(old(self).id, o),
    {
        pool.drawings.insert(self.id, o);
    }

    /// Ends the drawing: what the guard stood for is shown no more.
    pub fn stop(self, pool: &mut DrawingsPool)
        ensures
            final(pool)@ == old(pool)@.remove(self.id),
            old(pool)@.contains_key(self.id) ==> final(pool)@.len() == old(pool)@.len() - 1,
    {
        pool.drawings.remove(&self.id);
    }
}

impl<D: RobotData> Robot<D> {
    /// The robot as the viewer draws it.
    pub fn get_viewer_object(&self) -> (o: ViewerObject)
        ensures
            o == (ViewerObject::Robot {
                id: self.id,
                color: self.color,
                has_ball: self.has_ball,
                pos: self.pos,
                vel: self.vel,
            }),
    {
        ViewerObject::Robot {
            id: self.get_id(),
            color: self.get_color(),
            has_ball: self.has_ball(),
            pos: self.get_pos(),
            vel: self.get_vel(),
        }
    }
}

/// A drawing that is started under a free number and stopped leaves the
/// pool as it was.
pub proof fn lemma_stopped_drawing_leaves_no_trace(
    drawings: Map<usize, ViewerObject>,
    id: usize,
    o: ViewerObject,
)
    requires
        !drawings.contains_key(id),
    ensures
        drawings.insert(id, o).remove(id) == drawings,
{
    assert(drawings.insert(id, o).remove(id) =~= drawings);
}

} // verus!
