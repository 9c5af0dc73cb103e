//! Recording a frame: triangles are sorted into draws, one for each run of
//! triangles with the same texture.

use crate::backend::blitz::ONE_BITS;
use crate::backend::frame::{at_least_one, clamp_size, BrowserFrame};
use crate::scalar::{Real32, INFINITY_BITS};
use crate::scene::clip::ClipRect;
use crate::scene::texture::{
    image_bytes, is_texture_of, texture_pixels, PixelAlpha, PixelFormat,
};
use std::collections::HashMap;
use vstd::prelude::*;

verus! {

/// How many draws a frame holds at most.
pub const MAX_CANVAS_DRAWS: usize = 240;

/// A corner of a triangle: its place, its colour and its place in the texture.
#[derive(Clone, Copy, Debug, PartialEq)]
pub struct Vertex {
    pub position: [Real32; 2],
    pub color: [Real32; 4],
    pub uv: [Real32; 2],
}

/// Whether a number is neither infinite nor not a number.
pub open spec fn finite(value: Real32) -> bool {
    value.magnitude() < INFINITY_BITS
}

impl Vertex {
    /// Whether all of its numbers are finite.
    pub open spec fn all_finite(self) -> bool {
        &&& finite(self.position@[0]) && finite(self.position@[1])
        &&& finite(self.color@[0]) && finite(self.color@[1]) && finite(self.color@[2]) && finite(
            self.color@[3],
        )
        &&& finite(self.uv@[0]) && finite(self.uv@[1])
    }

    /// Whether all of its numbers are finite.
    pub fn is_finite(&self) -> (result: bool)
        ensures
            result == self.all_finite(),
    {
        self.position[0].is_finite() && self.position[1].is_finite() && self.color[0].is_finite()
            && self.color[1].is_finite() && self.color[2].is_finite() && self.color[3].is_finite()
            && self.uv[0].is_finite() && self.uv[1].is_finite()
    }
}

/// What is drawn through: a rectangle and how opaque it is.
#[derive(Clone, Copy, Debug, PartialEq)]
pub struct LayerState {
    pub clip: ClipRect,
    pub alpha: Real32,
}

/// A run of triangles with the same texture.
#[derive(Debug)]
pub struct Batch<T> {
    pub texture_key: Option<u64>,
    pub texture: Option<T>,
    pub vertices: Vec<Vertex>,
}

/// A draw of a finished frame.
#[derive(Debug)]
pub struct SceneDraw<T> {
    /// The number of the mesh that the draw takes the place of.
    pub mesh: usize,
    pub vertices: Vec<Vertex>,
    pub texture: Option<T>,
}

/// What becomes of an image that is to be drawn.
#[derive(Debug, PartialEq, Eq)]
pub enum ImageTexture {
    /// There is a texture for it.
    Known,
    /// A texture with these pixels is to be made for it.
    Fresh(Vec<u8>),
    /// It cannot be drawn.
    Unusable,
}

/// Persistent renderer that turns paint commands into draws.  `T` is a texture.
pub struct SgfxSceneRenderer<T> {
    pub width: u32,
    pub height: u32,
    pub revision: u64,
    pub batches: Vec<Batch<T>>,
    pub layers: Vec<LayerState>,
    pub layer: LayerState,
    pub textures: HashMap<u64, T>,
}

/// The corners of the triangles that a polygon is cut into, as far as the
/// corners before `count`: each has its first corner at the polygon's first.
/// One with a corner that is not finite is left out.
pub open spec fn fan(polygon: Seq<Vertex>, count: nat) -> Seq<Vertex>
    decreases count,
{
    if count < 3 {
        Seq::empty()
    } else {
        let rest = fan(polygon, (count - 1) as nat);
        let (a, b, c) = (polygon[0], polygon[count - 2], polygon[count - 1]);
        if a.all_finite() && b.all_finite() && c.all_finite() {
            rest.push(a).push(b).push(c)
        } else {
            rest
        }
    }
}

/// A batch that holds the given corners, as plain values.
pub ghost struct BatchParts<T> {
    pub texture_key: Option<u64>,
    pub texture: Option<T>,
    pub vertices: Seq<Vertex>,
}

impl<T> View for Batch<T> {
    type V = BatchParts<T>;

    open spec fn view(&self) -> BatchParts<T> {
        BatchParts {
            texture_key: self.texture_key,
            texture: self.texture,
            vertices: self.vertices@,
        }
    }
}

/// Batches as plain values.
pub open spec fn batch_parts<T>(batches: Seq<Batch<T>>) -> Seq<BatchParts<T>> {
    batches.map_values(|batch: Batch<T>| batch@)
}

/// The batches once a polygon with at least three corners has been recorded: it
/// goes into the last batch if that has the same texture, and else into a new
/// one.
pub open spec fn recorded<T>(
    batches: Seq<BatchParts<T>>,
    texture_key: Option<u64>,
    texture: Option<T>,
    corners: Seq<Vertex>,
) -> Seq<BatchParts<T>> {
    if batches.len() > 0 && batches.last().texture_key == texture_key {
        batches.drop_last().push(
            BatchParts { vertices: batches.last().vertices + corners, ..batches.last() },
        )
    } else {
        batches.push(BatchParts { texture_key, texture, vertices: corners })
    }
}

/// The batches that hold anything.
pub open spec fn drawable<T>(batches: Seq<BatchParts<T>>) -> Seq<BatchParts<T>>
    decreases batches.len(),
{
    if batches.len() == 0 {
        batches
    } else if batches.last().vertices.len() == 0 {
        drawable(batches.drop_last())
    } else {
        drawable(batches.drop_last()).push(batches.last())
    }
}

/// Whether the draws are the first of those batches, in their order, as many as
/// a frame holds.
pub open spec fn draws_all<T>(batches: Seq<BatchParts<T>>, draws: Seq<SceneDraw<T>>) -> bool {
    let shown = drawable(batches);
    &&& draws.len() == if shown.len() < MAX_CANVAS_DRAWS {
        shown.len() as int
    } else {
        MAX_CANVAS_DRAWS as int
    }
    &&& forall|i: int|
        0 <= i < draws.len() ==> {
            &&& (#[trigger] draws[i]).mesh == i
            &&& draws[i].vertices@ == shown[i].vertices
            &&& draws[i].texture == shown[i].texture
        }
}

/// The number of a frame after the one with the given number.
pub open spec fn next_revision(revision: u64) -> u64 {
    if revision == u64::MAX {
        0
    } else {
        (revision + 1) as u64
    }
}

impl<T> SgfxSceneRenderer<T> {
    /// Batches next to each other have different textures, and hold whole
    /// triangles with finite corners.
    pub open spec fn wf(self) -> bool {
        well_batched(batch_parts(self.batches@))
    }

    /// A renderer that has recorded nothing; `page` is what is drawn through.
    pub fn new(page: ClipRect) -> (result: SgfxSceneRenderer<T>)
        ensures
            result.wf(),
            result.width == 1,
            result.height == 1,
            result.revision == 0,
            batch_parts(result.batches@) == Seq::<BatchParts<T>>::empty(),
            result.layers@ == Seq::<LayerState>::empty(),
            result.layer == (LayerState { clip: page, alpha: Real32 { bits: ONE_BITS } }),
            result.textures@ == Map::<u64, T>::empty(),
    {
        broadcast use vstd::std_specs::hash::group_hash_axioms;

        let result = SgfxSceneRenderer {
            width: 1,
            height: 1,
            revision: 0,
            batches: Vec::new(),
            layers: Vec::new(),
            layer: LayerState { clip: page, alpha: Real32 { bits: ONE_BITS } },
            textures: HashMap::new(),
        };
        assert(batch_parts(result.batches@) =~= Seq::empty());
        result
    }

    /// Start recording a physical-pixel frame; `page` is what is drawn through.
    pub fn begin_frame(&mut self, width: u32, height: u32, page: ClipRect)
        ensures
            final(self).wf(),
            final(self).width == at_least_one(width),
            final(self).height == at_least_one(height),
            final(self).revision == next_revision(old(self).revision),
            batch_parts(final(self).batches@) == Seq::<BatchParts<T>>::empty(),
            final(self).layers@ == Seq::<LayerState>::empty(),
            final(self).layer == (LayerState { clip: page, alpha: Real32 { bits: ONE_BITS } }),
            final(self).textures == old(self).textures,
    {
        self.width = clamp_size(width);
        self.height = clamp_size(height);
        self.revision = if self.revision == u64::MAX {
            0
        } else {
            self.revision + 1
        };
        self.batches.clear();
        self.layers.clear();
        self.layer = LayerState { clip: page, alpha: Real32 { bits: ONE_BITS } };
        assert(batch_parts(self.batches@) =~= Seq::empty());
    }

    /// Finish recording and hand out the draws.
    pub fn finish_frame(&mut self) -> (frame: BrowserFrame<SceneDraw<T>>)
        requires
            old(self).wf(),
        ensures
            final(self).wf(),
            frame.revision == old(self).revision,
            frame.width == old(self).width,
            frame.height == old(self).height,
            draws_all(batch_parts(old(self).batches@), frame.draws@),
            batch_parts(final(self).batches@) == Seq::<BatchParts<T>>::empty(),
            final(self).width == old(self).width,
            final(self).height == old(self).height,
            final(self).revision == old(self).revision,
            final(self).layers == old(self).layers,
            final(self).layer == old(self).layer,
            final(self).textures == old(self).textures,
    {
        let mut batches: Vec<Batch<T>> = Vec::new();
        std::mem::swap(&mut batches, &mut self.batches);
        assert(batch_parts(self.batches@) =~= Seq::empty());
        let ghost all = batch_parts(batches@);
        let ghost whole = batches@;
        let mut draws: Vec<SceneDraw<T>> = Vec::new();
        assert(all.take(0) =~= Seq::empty());
        for batch in iter: batches
            invariant
                iter.seq() == whole,
                all == batch_parts(whole),
                draws_all(all.take(iter.index()), draws@),
        {
            let ghost i = iter.index();
            assert(all.take(i + 1).drop_last() =~= all.take(i));
            assert(all[i] == batch@);
            let mesh = draws.len();
            if mesh < MAX_CANVAS_DRAWS && batch.vertices.len() > 0 {
                draws.push(SceneDraw { mesh, vertices: batch.vertices, texture: batch.texture });
            }
        }
        assert(all.take(whole.len() as int) =~= all);
        BrowserFrame { revision: self.revision, width: self.width, height: self.height, draws }
    }

    /// A valid frame that draws nothing, for while there is no document.
    pub fn empty_frame(&mut self, width: u32, height: u32, page: ClipRect) -> (frame: BrowserFrame<
        SceneDraw<T>,
    >)
        ensures
            final(self).wf(),
            frame.revision == next_revision(old(self).revision),
            frame.width == at_least_one(width),
            frame.height == at_least_one(height),
            frame.draws@.len() == 0,
            final(self).revision == frame.revision,
            final(self).width == frame.width,
            final(self).height == frame.height,
            batch_parts(final(self).batches@) == Seq::<BatchParts<T>>::empty(),
            final(self).layers@ == Seq::<LayerState>::empty(),
            final(self).layer == (LayerState { clip: page, alpha: Real32 { bits: ONE_BITS } }),
            final(self).textures == old(self).textures,
    {
        self.begin_frame(width, height, page);
        self.finish_frame()
    }

    /// Draw through the given rectangle as well, and with the given opacity,
    /// until the layer is taken away again.
    pub fn push_clip(&mut self, bounds: ClipRect, alpha: Real32)
        ensures
            final(self).layers@ == old(self).layers@.push(old(self).layer),
            final(self).layer == (LayerState { clip: old(self).layer.clip.common(bounds), alpha }),
            final(self).batches == old(self).batches,
            final(self).textures == old(self).textures,
            final(self).width == old(self).width,
            final(self).height == old(self).height,
            final(self).revision == old(self).revision,
    {
        self.layers.push(self.layer);
        self.layer = LayerState { clip: self.layer.clip.intersect(bounds), alpha };
    }

    /// Take the last layer away; without layers nothing happens.
    pub fn pop_layer(&mut self)
        ensures
            old(self).layers@.len() > 0 ==> final(self).layers@ == old(self).layers@.drop_last()
                && final(self).layer == old(self).layers@.last(),
            old(self).layers@.len() == 0 ==> final(self).layers@ == old(self).layers@
                && final(self).layer == old(self).layer,
            final(self).batches == old(self).batches,
            final(self).textures == old(self).textures,
            final(self).width == old(self).width,
            final(self).height == old(self).height,
            final(self).revision == old(self).revision,
    {
        if let Some(layer) = self.layers.pop() {
            self.layer = layer;
        }
    }

    /// Record a clipped polygon; one with fewer than three corners is nothing.
    pub fn append_polygon(
        &mut self,
        polygon: &Vec<Vertex>,
        texture_key: Option<u64>,
        texture: Option<T>,
    )
        requires
            old(self).wf(),
        ensures
            final(self).wf(),
            batch_parts(final(self).batches@) == if polygon@.len() < 3 {
                batch_parts(old(self).batches@)
            } else {
                recorded(
                    batch_parts(old(self).batches@),
                    texture_key,
                    texture,
                    fan(polygon@, polygon@.len()),
                )
            },
            final(self).layers == old(self).layers,
            final(self).layer == old(self).layer,
            final(self).textures == old(self).textures,
            final(self).width == old(self).width,
            final(self).height == old(self).height,
            final(self).revision == old(self).revision,
    {
        if polygon.len() < 3 {
            return ;
        }
        let ghost before = batch_parts(self.batches@);
        let mut batch = self.batch_for(texture_key, texture);
        let ghost kept = batch_parts(self.batches@);
        let ghost begun = batch@;
        let mut count: usize = 2;
        assert(begun.vertices + fan(polygon@, 2) =~= begun.vertices);
        while count < polygon.len()
            invariant
                2 <= count <= polygon.len(),
                batch.texture_key == begun.texture_key,
                batch.texture == begun.texture,
                batch.vertices@ == begun.vertices + fan(polygon@, count as nat),
            decreases polygon.len() - count,
        {
            let (a, b, c) = (polygon[0], polygon[count - 1], polygon[count]);
            let ghost so_far = fan(polygon@, count as nat);
            if a.is_finite() && b.is_finite() && c.is_finite() {
                batch.vertices.push(a);
                batch.vertices.push(b);
                batch.vertices.push(c);
                assert(batch.vertices@ =~= begun.vertices + so_far.push(a).push(b).push(c));
            }
            count += 1;
        }
        let ghost grown = batch@;
        self.batches.push(batch);
        proof {
            assert(batch_parts(self.batches@) =~= kept.push(grown));
            let corners = fan(polygon@, polygon@.len());
            assert(Seq::<Vertex>::empty() + corners =~= corners);
            assert(batch_parts(self.batches@) =~= recorded(before, texture_key, texture, corners));
            recording_keeps_batches(before, texture_key, texture, polygon@);
        }
    }

    /// Take out the batch that triangles with the given texture go into.
    fn batch_for(&mut self, texture_key: Option<u64>, texture: Option<T>) -> (batch: Batch<T>)
        ensures
            ({
                let before = batch_parts(old(self).batches@);
                if before.len() > 0 && before.last().texture_key == texture_key {
                    &&& batch@ == before.last()
                    &&& batch_parts(final(self).batches@) == before.drop_last()
                } else {
                    &&& batch@ == (BatchParts {
                        texture_key,
                        texture,
                        vertices: Seq::<Vertex>::empty(),
                    })
                    &&& batch_parts(final(self).batches@) == before
                }
            }),
            final(self).layers == old(self).layers,
            final(self).layer == old(self).layer,
            final(self).textures == old(self).textures,
            final(self).width == old(self).width,
            final(self).height == old(self).height,
            final(self).revision == old(self).revision,
    {
        let count = self.batches.len();
        if count > 0 && self.batches[count - 1].texture_key == texture_key {
            if let Some(batch) = self.batches.pop() {
                assert(batch_parts(self.batches@) =~= batch_parts(old(self).batches@).drop_last());
                return batch;
            }
        }
        Batch { texture_key, texture, vertices: Vec::new() }
    }

    /// The texture for an image with the given key: one that is there already,
    /// or the pixels of one that is to be made.
    pub fn texture(
        &self,
        key: u64,
        width: u32,
        height: u32,
        format: PixelFormat,
        alpha: PixelAlpha,
        data: &[u8],
    ) -> (result: ImageTexture)
        requires
            self.textures@.contains_key(key) || image_bytes(width, height) <= usize::MAX,
        ensures
            result is Known <==> self.textures@.contains_key(key),
            !self.textures@.contains_key(key) ==> match result {
                ImageTexture::Known => false,
                ImageTexture::Fresh(pixels) => {
                    &&& width != 0 && height != 0
                    &&& data@.len() == image_bytes(width, height)
                    &&& format != PixelFormat::Unsupported
                    &&& is_texture_of(data@, format, alpha, pixels@)
                },
                ImageTexture::Unusable => width == 0 || height == 0 || data@.len() != image_bytes(
                    width,
                    height,
                ) || format == PixelFormat::Unsupported,
            },
    {
        broadcast use vstd::std_specs::hash::group_hash_axioms;

        if self.textures.contains_key(&key) {
            return ImageTexture::Known;
        }
        match texture_pixels(width, height, format, alpha, data) {
            Some(pixels) => ImageTexture::Fresh(pixels),
            None => ImageTexture::Unusable,
        }
    }

    /// Keep the texture that was made for an image.
    pub fn keep_texture(&mut self, key: u64, texture: T)
        ensures
            final(self).textures@ == old(self).textures@.insert(key, texture),
            final(self).batches == old(self).batches,
            final(self).layers == old(self).layers,
            final(self).layer == old(self).layer,
            final(self).width == old(self).width,
            final(self).height == old(self).height,
            final(self).revision == old(self).revision,
    {
        broadcast use vstd::std_specs::hash::group_hash_axioms;

        self.textures.insert(key, texture);
    }

    /// The texture that is kept for an image.
    pub fn find_texture(&self, key: u64) -> (result: Option<&T>)
        ensures
            result is Some <==> self.textures@.contains_key(key),
            result matches Some(texture) ==> *texture == self.textures@[key],
    {
        broadcast use vstd::std_specs::hash::group_hash_axioms;

        self.textures.get(&key)
    }
}

/// Whether batches next to each other have different textures, and each holds
/// whole triangles with finite corners.
pub open spec fn well_batched<T>(batches: Seq<BatchParts<T>>) -> bool {
    &&& forall|i: int, j: int|
        0 <= i && j == i + 1 && j < batches.len() ==> (#[trigger] batches[i]).texture_key != (
        #[trigger] batches[j]).texture_key
    &&& forall|i: int|
        0 <= i < batches.len() ==> whole_triangles((#[trigger] batches[i]).vertices)
}

/// Whether corners make whole triangles and are all finite.
pub open spec fn whole_triangles(corners: Seq<Vertex>) -> bool {
    &&& corners.len() % 3 == 0
    &&& forall|i: int| 0 <= i < corners.len() ==> (#[trigger] corners[i]).all_finite()
}

proof fn fan_is_whole(polygon: Seq<Vertex>, count: nat)
    requires
        count <= polygon.len(),
    ensures
        whole_triangles(fan(polygon, count)),
    decreases count,
{
    if count >= 3 {
        fan_is_whole(polygon, (count - 1) as nat);
    }
}

proof fn recording_keeps_batches<T>(
    batches: Seq<BatchParts<T>>,
    texture_key: Option<u64>,
    texture: Option<T>,
    polygon: Seq<Vertex>,
)
    requires
        well_batched(batches),
    ensures
        well_batched(recorded(batches, texture_key, texture, fan(polygon, polygon.len()))),
{
    fan_is_whole(polygon, polygon.len());
}

/// A frame never holds more draws than it can, and a draw is never empty.
pub proof fn frames_are_bounded<T>(batches: Seq<BatchParts<T>>, draws: Seq<SceneDraw<T>>)
    requires
        draws_all(batches, draws),
    ensures
        draws.len() <= MAX_CANVAS_DRAWS,
        forall|i: int| 0 <= i < draws.len() ==> (#[trigger] draws[i]).vertices@.len() > 0,
{
    drawable_holds_something(batches);
}

proof fn drawable_holds_something<T>(batches: Seq<BatchParts<T>>)
    ensures
        forall|i: int|
            0 <= i < drawable(batches).len() ==> (#[trigger] drawable(batches)[i]).vertices.len()
                > 0,
    decreases batches.len(),
{
    if batches.len() > 0 {
        drawable_holds_something(batches.drop_last());
    }
}

/// Taking a layer away undoes putting it there.
pub proof fn layers_nest(layers: Seq<LayerState>, layer: LayerState)
    ensures
        layers.push(layer).drop_last() == layers,
        layers.push(layer).last() == layer,
{
    assert(layers.push(layer).drop_last() =~= layers);
}

/// A polygon that is wholly finite is cut into two triangles fewer than it has
/// corners.
pub proof fn finite_polygons_are_cut_whole(polygon: Seq<Vertex>, count: nat)
    requires
        2 <= count <= polygon.len(),
        forall|i: int| 0 <= i < polygon.len() ==> (#[trigger] polygon[i]).all_finite(),
    ensures
        fan(polygon, count).len() == 3 * (count - 2),
    decreases count,
{
    if count > 2 {
        finite_polygons_are_cut_whole(polygon, (count - 1) as nat);
    }
}

/// A finite polygon is cut into triangles that share its first corner: each has
/// two neighbouring corners besides, in their order, and every two neighbours
/// after the first corner have one.
pub proof fn polygons_are_cut_from_their_first_corner(polygon: Seq<Vertex>, count: nat, at: int)
    requires
        3 <= count <= polygon.len(),
        forall|i: int| 0 <= i < polygon.len() ==> (#[trigger] polygon[i]).all_finite(),
        0 <= at < count - 2,
    ensures
        fan(polygon, count).len() == 3 * (count - 2),
        fan(polygon, count)[3 * at] == polygon[0],
        fan(polygon, count)[3 * at + 1] == polygon[at + 1],
        fan(polygon, count)[3 * at + 2] == polygon[at + 2],
    decreases count,
{
    finite_polygons_are_cut_whole(polygon, count);
    let rest = fan(polygon, (count - 1) as nat);
    finite_polygons_are_cut_whole(polygon, (count - 1) as nat);
    assert(fan(polygon, count) == rest.push(polygon[0]).push(polygon[count - 2]).push(
        polygon[count - 1],
    ));
    if at < count - 3 {
        polygons_are_cut_from_their_first_corner(polygon, (count - 1) as nat, at);
    }
}

/// One more corner adds one triangle at the end, of the first corner and the last
/// two, unless one of these is not finite.
pub proof fn corners_add_triangles(polygon: Seq<Vertex>, corner: Vertex)
    requires
        polygon.len() >= 2,
    ensures
        fan(polygon.push(corner), polygon.len() + 1) == fan(polygon, polygon.len()) + if polygon[0].all_finite()
            && polygon.last().all_finite() && corner.all_finite() {
            seq![polygon[0], polygon.last(), corner]
        } else {
            Seq::empty()
        },
        fan(polygon.take(2), 2) == Seq::<Vertex>::empty(),
{
    let longer = polygon.push(corner);
    fan_of_prefix(polygon, corner, polygon.len());
    let rest = fan(polygon, polygon.len());
    assert(fan(longer, longer.len()) =~= rest + if polygon[0].all_finite()
        && polygon.last().all_finite() && corner.all_finite() {
        seq![polygon[0], polygon.last(), corner]
    } else {
        Seq::empty()
    });
}

proof fn fan_of_prefix(polygon: Seq<Vertex>, corner: Vertex, count: nat)
    requires
        count <= polygon.len(),
    ensures
        fan(polygon.push(corner), count) == fan(polygon, count),
    decreases count,
{
    if count >= 3 {
        fan_of_prefix(polygon, corner, (count - 1) as nat);
    }
}

/// A vertex is finite exactly if none of its eight numbers is infinite or no
/// number at all.
pub proof fn finite_vertices_have_finite_numbers(vertex: Vertex)
    ensures
        vertex.all_finite() <==> {
            &&& forall|i: int| 0 <= i < 2 ==> finite(#[trigger] vertex.position@[i])
            &&& forall|i: int| 0 <= i < 4 ==> finite(#[trigger] vertex.color@[i])
            &&& forall|i: int| 0 <= i < 2 ==> finite(#[trigger] vertex.uv@[i])
        },
        finite(vertex.position@[0]) <==> vertex.position@[0].bits < 0x7f80_0000 || 0x8000_0000
            <= vertex.position@[0].bits < 0xff80_0000,
{
}

/// All corners of some batches, one batch after the other.
pub open spec fn all_corners<T>(batches: Seq<BatchParts<T>>) -> Seq<Vertex>
    decreases batches.len(),
{
    if batches.len() == 0 {
        Seq::empty()
    } else {
        all_corners(batches.drop_last()) + batches.last().vertices
    }
}

/// What is recorded is drawn after everything before it, with its own texture,
/// and nothing that was recorded before is lost or moved.  It goes with what was
/// recorded last if that has the same texture, and else begins a batch of its
/// own.
pub proof fn recording_adds_at_the_end<T>(
    batches: Seq<BatchParts<T>>,
    texture_key: Option<u64>,
    texture: Option<T>,
    corners: Seq<Vertex>,
)
    ensures
        ({
            let after = recorded(batches, texture_key, texture, corners);
            let joins = batches.len() > 0 && batches.last().texture_key == texture_key;
            &&& all_corners(after) == all_corners(batches) + corners
            &&& after.len() > 0
            &&& after.last().texture_key == texture_key
            &&& !joins ==> after.len() == batches.len() + 1 && after.drop_last() == batches
                && after.last().vertices == corners && after.last().texture == texture
            &&& joins ==> after.len() == batches.len() && after.drop_last()
                == batches.drop_last() && after.last().vertices == batches.last().vertices
                + corners && after.last().texture == batches.last().texture
        }),
{
    let after = recorded(batches, texture_key, texture, corners);
    if batches.len() > 0 && batches.last().texture_key == texture_key {
        assert(after.drop_last() =~= batches.drop_last());
        assert(all_corners(after) =~= all_corners(batches) + corners);
    } else {
        assert(after.drop_last() =~= batches);
    }
}

proof fn drawable_keeps_corners<T>(batches: Seq<BatchParts<T>>)
    ensures
        all_corners(drawable(batches)) == all_corners(batches),
        drawable(batches).len() <= batches.len(),
        forall|i: int|
            0 <= i < drawable(batches).len() ==> (#[trigger] drawable(batches)[i]).vertices.len()
                > 0 && batches.contains(drawable(batches)[i]),
        (forall|i: int| 0 <= i < batches.len() ==> (#[trigger] batches[i]).vertices.len() > 0)
            ==> drawable(batches) == batches,
    decreases batches.len(),
{
    if batches.len() > 0 {
        let rest = batches.drop_last();
        drawable_keeps_corners(rest);
        assert forall|i: int| 0 <= i < drawable(batches).len() implies (
        #[trigger] drawable(batches)[i]).vertices.len() > 0 && batches.contains(
            drawable(batches)[i],
        ) by {
            if i < drawable(rest).len() {
                assert(drawable(batches)[i] == drawable(rest)[i]);
                assert(rest.contains(drawable(rest)[i]));
                let k = choose|k: int| 0 <= k < rest.len() && rest[k] == drawable(rest)[i];
                assert(batches[k] == drawable(rest)[i]);
            } else {
                assert(batches[batches.len() - 1] == drawable(batches)[i]);
            }
        }
        if batches.last().vertices.len() == 0 {
            assert(all_corners(batches) =~= all_corners(rest));
        } else {
            assert(drawable(batches).drop_last() =~= drawable(rest));
        }
        if forall|i: int| 0 <= i < batches.len() ==> (#[trigger] batches[i]).vertices.len() > 0 {
            assert forall|i: int| 0 <= i < rest.len() implies (#[trigger] rest[i]).vertices.len()
                > 0 by {
                assert(rest[i] == batches[i]);
            }
            assert(batches[batches.len() - 1].vertices.len() > 0);
            assert(drawable(batches) =~= batches);
        }
    }
}

/// All corners of some draws, one draw after the other.
pub open spec fn drawn_corners<T>(draws: Seq<SceneDraw<T>>) -> Seq<Vertex>
    decreases draws.len(),
{
    if draws.len() == 0 {
        Seq::empty()
    } else {
        drawn_corners(draws.drop_last()) + draws.last().vertices@
    }
}

proof fn draws_hold_their_batches<T>(shown: Seq<BatchParts<T>>, draws: Seq<SceneDraw<T>>)
    requires
        draws.len() == shown.len(),
        forall|i: int|
            0 <= i < draws.len() ==> (#[trigger] draws[i]).vertices@ == shown[i].vertices,
    ensures
        drawn_corners(draws) == all_corners(shown),
    decreases draws.len(),
{
    if draws.len() > 0 {
        assert forall|i: int| 0 <= i < draws.len() - 1 implies (
        #[trigger] draws.drop_last()[i]).vertices@ == shown.drop_last()[i].vertices by {
            assert(draws.drop_last()[i] == draws[i]);
        }
        draws_hold_their_batches(shown.drop_last(), draws.drop_last());
        assert(draws[draws.len() - 1].vertices@ == shown[draws.len() - 1].vertices);
    }
}

/// A frame shows everything that was recorded, in the order of recording, as long
/// as it has not more than 240 batches; the draws are numbered in that order.
pub proof fn frames_show_what_was_recorded<T>(
    batches: Seq<BatchParts<T>>,
    draws: Seq<SceneDraw<T>>,
)
    requires
        draws_all(batches, draws),
        batches.len() <= 240,
    ensures
        drawn_corners(draws) == all_corners(batches),
        forall|i: int| 0 <= i < draws.len() ==> (#[trigger] draws[i]).mesh == i,
{
    drawable_keeps_corners(batches);
    draws_hold_their_batches(drawable(batches), draws);
}

/// Where no batch is empty, the draws are the batches, one for one, with their
/// textures; of more than 240, the first 240.
pub proof fn draws_are_the_batches<T>(batches: Seq<BatchParts<T>>, draws: Seq<SceneDraw<T>>)
    requires
        draws_all(batches, draws),
        forall|i: int| 0 <= i < batches.len() ==> (#[trigger] batches[i]).vertices.len() > 0,
    ensures
        batches.len() <= 240 ==> draws.len() == batches.len(),
        batches.len() > 240 ==> draws.len() == 240,
        forall|i: int|
            0 <= i < draws.len() ==> (#[trigger] draws[i]).vertices@ == batches[i].vertices
                && draws[i].texture == batches[i].texture && draws[i].mesh == i,
{
    drawable_keeps_corners(batches);
}

/// Frames that follow each other have different numbers, each one more than the
/// last as long as the numbers last.
pub proof fn frames_are_numbered(revision: u64)
    ensures
        next_revision(revision) != revision,
        revision < u64::MAX ==> next_revision(revision) == revision + 1,
{
}

} // verus!
