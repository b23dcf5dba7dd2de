//! The renderer's plain decisions: which primitive batches a scene draws and
//! in what order, which surface format and alpha mode to configure, how a
//! requested drawable size is clamped, what a failed frame acquisition
//! leads to, and how the instance buffer grows when a frame overflows it.
//! The GPU work itself (pipelines, buffers, command encoding) is done by the
//! graphics layer with these answers.

use vstd::prelude::*;
use crate::atlas::AtlasTextureId;

verus! {

/// How many primitives of each kind a scene holds, and the atlas texture of
/// each sprite kind.
#[derive(Copy, Clone, Debug, PartialEq, Eq)]
pub struct SceneShape {
    pub quads: usize,
    pub shadows: usize,
    pub paths: usize,
    pub underlines: usize,
    pub monochrome_sprites: usize,
    pub subpixel_sprites: usize,
    pub polychrome_sprites: usize,
    pub mono_texture_id: Option<AtlasTextureId>,
    pub subpixel_texture_id: Option<AtlasTextureId>,
    pub poly_texture_id: Option<AtlasTextureId>,
}

impl Default for SceneShape {
    fn default() -> (s: Self)
        ensures
            s.quads == 0 && s.shadows == 0 && s.paths == 0 && s.underlines == 0,
            s.monochrome_sprites == 0 && s.subpixel_sprites == 0 && s.polychrome_sprites == 0,
            s.mono_texture_id is None && s.subpixel_texture_id is None && s.poly_texture_id is None,
    {
        SceneShape {
            quads: 0,
            shadows: 0,
            paths: 0,
            underlines: 0,
            monochrome_sprites: 0,
            subpixel_sprites: 0,
            polychrome_sprites: 0,
            mono_texture_id: None,
            subpixel_texture_id: None,
            poly_texture_id: None,
        }
    }
}

/// A batch of primitives of one kind (the sprites with their texture).
#[derive(Copy, Clone, Debug, PartialEq, Eq)]
pub enum PrimitiveBatch {
    Quads,
    Shadows,
    Paths,
    Underlines,
    MonochromeSprites { texture_id: AtlasTextureId },
    SubpixelSprites { texture_id: AtlasTextureId },
    PolychromeSprites { texture_id: AtlasTextureId },
}

/// `b` if `cond`, nothing otherwise.
pub open spec fn batch_if(cond: bool, b: PrimitiveBatch) -> Seq<PrimitiveBatch> {
    if cond { seq![b] } else { Seq::empty() }
}

/// The monochrome sprite batch, when there are sprites and a texture.
pub open spec fn mono_batch(s: SceneShape) -> Seq<PrimitiveBatch> {
    match s.mono_texture_id {
        Some(t) => batch_if(s.monochrome_sprites > 0, PrimitiveBatch::MonochromeSprites { texture_id: t }),
        None => Seq::empty(),
    }
}

/// The subpixel sprite batch, when there are sprites and a texture.
pub open spec fn subpixel_batch(s: SceneShape) -> Seq<PrimitiveBatch> {
    match s.subpixel_texture_id {
        Some(t) => batch_if(s.subpixel_sprites > 0, PrimitiveBatch::SubpixelSprites { texture_id: t }),
        None => Seq::empty(),
    }
}

/// The polychrome sprite batch, when there are sprites and a texture.
pub open spec fn poly_batch(s: SceneShape) -> Seq<PrimitiveBatch> {
    match s.poly_texture_id {
        Some(t) => batch_if(s.polychrome_sprites > 0, PrimitiveBatch::PolychromeSprites { texture_id: t }),
        None => Seq::empty(),
    }
}

/// The batches a scene draws, in drawing order: quads, shadows, paths,
/// underlines, then the monochrome, subpixel and polychrome sprites; each
/// kind only when it has primitives, sprites only with a texture.
pub open spec fn scene_batches(s: SceneShape) -> Seq<PrimitiveBatch> {
    batch_if(s.quads > 0, PrimitiveBatch::Quads)
        + batch_if(s.shadows > 0, PrimitiveBatch::Shadows)
        + batch_if(s.paths > 0, PrimitiveBatch::Paths)
        + batch_if(s.underlines > 0, PrimitiveBatch::Underlines)
        + mono_batch(s)
        + subpixel_batch(s)
        + poly_batch(s)
}

fn push_if(v: &mut Vec<PrimitiveBatch>, cond: bool, b: PrimitiveBatch)
    ensures
        final(v)@ == old(v)@ + batch_if(cond, b),
{
    if cond {
        v.push(b);
        assert(final(v)@ =~= old(v)@ + batch_if(cond, b));
    } else {
        assert(final(v)@ =~= old(v)@ + batch_if(cond, b));
    }
}

impl SceneShape {
    /// The batches to draw, in order.
    pub fn batches(&self) -> (r: Vec<PrimitiveBatch>)
        ensures
            r@ == scene_batches(*self),
    {
        let mut v: Vec<PrimitiveBatch> = Vec::new();
        push_if(&mut v, self.quads > 0, PrimitiveBatch::Quads);
        assert(v@ =~= batch_if(self.quads > 0, PrimitiveBatch::Quads));
        push_if(&mut v, self.shadows > 0, PrimitiveBatch::Shadows);
        push_if(&mut v, self.paths > 0, PrimitiveBatch::Paths);
        push_if(&mut v, self.underlines > 0, PrimitiveBatch::Underlines);
        let ghost before_mono = v@;
        match self.mono_texture_id {
            Some(t) => push_if(&mut v, self.monochrome_sprites > 0, PrimitiveBatch::MonochromeSprites { texture_id: t }),
            None => assert(v@ =~= before_mono + mono_batch(*self)),
        }
        let ghost before_sub = v@;
        match self.subpixel_texture_id {
            Some(t) => push_if(&mut v, self.subpixel_sprites > 0, PrimitiveBatch::SubpixelSprites { texture_id: t }),
            None => assert(v@ =~= before_sub + subpixel_batch(*self)),
        }
        let ghost before_poly = v@;
        match self.poly_texture_id {
            Some(t) => push_if(&mut v, self.polychrome_sprites > 0, PrimitiveBatch::PolychromeSprites { texture_id: t }),
            None => assert(v@ =~= before_poly + poly_batch(*self)),
        }
        v
    }
}

/// The place of a batch's kind in the drawing order.
pub open spec fn batch_rank(b: PrimitiveBatch) -> int {
    match b {
        PrimitiveBatch::Quads => 0,
        PrimitiveBatch::Shadows => 1,
        PrimitiveBatch::Paths => 2,
        PrimitiveBatch::Underlines => 3,
        PrimitiveBatch::MonochromeSprites { .. } => 4,
        PrimitiveBatch::SubpixelSprites { .. } => 5,
        PrimitiveBatch::PolychromeSprites { .. } => 6,
    }
}

/// Every batch of `v` comes strictly before the next in drawing order.
pub open spec fn in_drawing_order(v: Seq<PrimitiveBatch>) -> bool {
    forall|i: int, j: int| 0 <= i < j < v.len() ==> batch_rank(#[trigger] v[i]) < batch_rank(#[trigger] v[j])
}

proof fn lemma_concat_contains(a: Seq<PrimitiveBatch>, b: Seq<PrimitiveBatch>, x: PrimitiveBatch)
    ensures
        (a + b).contains(x) <==> (a.contains(x) || b.contains(x)),
{
    if a.contains(x) {
        let i = choose|i: int| 0 <= i < a.len() && a[i] == x;
        assert((a + b)[i] == x);
    }
    if b.contains(x) {
        let i = choose|i: int| 0 <= i < b.len() && b[i] == x;
        assert((a + b)[a.len() + i] == x);
    }
    if (a + b).contains(x) {
        let i = choose|i: int| 0 <= i < (a + b).len() && (a + b)[i] == x;
        if i < a.len() {
            assert(a[i] == x);
        } else {
            assert(b[i - a.len()] == x);
        }
    }
}

proof fn lemma_batch_if_contains(cond: bool, b: PrimitiveBatch, x: PrimitiveBatch)
    ensures
        batch_if(cond, b).contains(x) <==> (cond && x == b),
{
    if cond && x == b {
        assert(batch_if(cond, b)[0] == x);
    }
}

/// Appending a batch of at most one element, all of whose kinds come after
/// every kind already in `a`, keeps the drawing order.
proof fn lemma_append_in_order(a: Seq<PrimitiveBatch>, b: Seq<PrimitiveBatch>, r: int)
    requires
        in_drawing_order(a),
        b.len() <= 1,
        forall|i: int| 0 <= i < a.len() ==> batch_rank(#[trigger] a[i]) < r,
        forall|i: int| 0 <= i < b.len() ==> batch_rank(#[trigger] b[i]) == r,
    ensures
        in_drawing_order(a + b),
        forall|i: int| 0 <= i < (a + b).len() ==> batch_rank(#[trigger] (a + b)[i]) <= r,
{
    assert forall|i: int, j: int| 0 <= i < j < (a + b).len()
        implies batch_rank(#[trigger] (a + b)[i]) < batch_rank(#[trigger] (a + b)[j]) by {
        if j < a.len() {
            assert((a + b)[i] == a[i] && (a + b)[j] == a[j]);
        } else {
            assert((a + b)[i] == a[i]);
            assert((a + b)[j] == b[j - a.len()]);
        }
    }
    assert forall|i: int| 0 <= i < (a + b).len() implies batch_rank(#[trigger] (a + b)[i]) <= r by {
        if i < a.len() {
            assert((a + b)[i] == a[i]);
        } else {
            assert((a + b)[i] == b[i - a.len()]);
        }
    }
}

/// Whether a scene holds primitives of `b`'s kind (sprites: with `b`'s
/// texture).
spec fn scene_has(s: SceneShape, b: PrimitiveBatch) -> bool {
    match b {
        PrimitiveBatch::Quads => s.quads > 0,
        PrimitiveBatch::Shadows => s.shadows > 0,
        PrimitiveBatch::Paths => s.paths > 0,
        PrimitiveBatch::Underlines => s.underlines > 0,
        PrimitiveBatch::MonochromeSprites { texture_id } => s.mono_texture_id == Some(texture_id)
            && s.monochrome_sprites > 0,
        PrimitiveBatch::SubpixelSprites { texture_id } => s.subpixel_texture_id == Some(texture_id)
            && s.subpixel_sprites > 0,
        PrimitiveBatch::PolychromeSprites { texture_id } => s.poly_texture_id == Some(texture_id)
            && s.polychrome_sprites > 0,
    }
}

proof fn lemma_sprite_piece_contains(
    id: Option<AtlasTextureId>,
    count: usize,
    mk: spec_fn(AtlasTextureId) -> PrimitiveBatch,
    piece: Seq<PrimitiveBatch>,
    x: PrimitiveBatch,
)
    requires
        piece == (match id {
            Some(t) => batch_if(count > 0, mk(t)),
            None => Seq::<PrimitiveBatch>::empty(),
        }),
    ensures
        piece.contains(x) <==> (id matches Some(t) && count > 0 && x == mk(t)),
{
    if let Some(t) = id {
        lemma_batch_if_contains(count > 0, mk(t), x);
    }
}

#[verifier::rlimit(30)]
proof fn lemma_scene_contains(s: SceneShape, x: PrimitiveBatch)
    ensures
        scene_batches(s).contains(x) <==> scene_has(s, x),
{
    let q = batch_if(s.quads > 0, PrimitiveBatch::Quads);
    let sh = batch_if(s.shadows > 0, PrimitiveBatch::Shadows);
    let pa = batch_if(s.paths > 0, PrimitiveBatch::Paths);
    let un = batch_if(s.underlines > 0, PrimitiveBatch::Underlines);
    let mo = mono_batch(s);
    let su = subpixel_batch(s);
    let po = poly_batch(s);
    lemma_concat_contains(q, sh, x);
    lemma_concat_contains(q + sh, pa, x);
    lemma_concat_contains(q + sh + pa, un, x);
    lemma_concat_contains(q + sh + pa + un, mo, x);
    lemma_concat_contains(q + sh + pa + un + mo, su, x);
    lemma_concat_contains(q + sh + pa + un + mo + su, po, x);
    lemma_batch_if_contains(s.quads > 0, PrimitiveBatch::Quads, x);
    lemma_batch_if_contains(s.shadows > 0, PrimitiveBatch::Shadows, x);
    lemma_batch_if_contains(s.paths > 0, PrimitiveBatch::Paths, x);
    lemma_batch_if_contains(s.underlines > 0, PrimitiveBatch::Underlines, x);
    lemma_sprite_piece_contains(s.mono_texture_id, s.monochrome_sprites,
        |t: AtlasTextureId| PrimitiveBatch::MonochromeSprites { texture_id: t }, mo, x);
    lemma_sprite_piece_contains(s.subpixel_texture_id, s.subpixel_sprites,
        |t: AtlasTextureId| PrimitiveBatch::SubpixelSprites { texture_id: t }, su, x);
    lemma_sprite_piece_contains(s.poly_texture_id, s.polychrome_sprites,
        |t: AtlasTextureId| PrimitiveBatch::PolychromeSprites { texture_id: t }, po, x);
}

proof fn lemma_scene_in_order(s: SceneShape)
    ensures
        in_drawing_order(scene_batches(s)),
{
    let q = batch_if(s.quads > 0, PrimitiveBatch::Quads);
    let sh = batch_if(s.shadows > 0, PrimitiveBatch::Shadows);
    let pa = batch_if(s.paths > 0, PrimitiveBatch::Paths);
    let un = batch_if(s.underlines > 0, PrimitiveBatch::Underlines);
    let mo = mono_batch(s);
    let su = subpixel_batch(s);
    let po = poly_batch(s);
    let e = Seq::<PrimitiveBatch>::empty();
    assert(e + q =~= q);
    lemma_append_in_order(e, q, 0);
    lemma_append_in_order(q, sh, 1);
    lemma_append_in_order(q + sh, pa, 2);
    lemma_append_in_order(q + sh + pa, un, 3);
    lemma_append_in_order(q + sh + pa + un, mo, 4);
    lemma_append_in_order(q + sh + pa + un + mo, su, 5);
    lemma_append_in_order(q + sh + pa + un + mo + su, po, 6);
}

/// Each primitive kind is drawn exactly when the scene holds primitives of
/// that kind (sprites: and has their texture, which the batch carries),
/// whatever the other kinds hold; the batches come in the fixed drawing
/// order quads, shadows, paths, underlines, monochrome, subpixel and
/// polychrome sprites, each kind at most once.
pub proof fn lemma_scene_batches_by_kind(s: SceneShape, t: AtlasTextureId)
    ensures
        scene_batches(s).contains(PrimitiveBatch::Quads) <==> s.quads > 0,
        scene_batches(s).contains(PrimitiveBatch::Shadows) <==> s.shadows > 0,
        scene_batches(s).contains(PrimitiveBatch::Paths) <==> s.paths > 0,
        scene_batches(s).contains(PrimitiveBatch::Underlines) <==> s.underlines > 0,
        scene_batches(s).contains(PrimitiveBatch::MonochromeSprites { texture_id: t })
            <==> (s.mono_texture_id == Some(t) && s.monochrome_sprites > 0),
        scene_batches(s).contains(PrimitiveBatch::SubpixelSprites { texture_id: t })
            <==> (s.subpixel_texture_id == Some(t) && s.subpixel_sprites > 0),
        scene_batches(s).contains(PrimitiveBatch::PolychromeSprites { texture_id: t })
            <==> (s.poly_texture_id == Some(t) && s.polychrome_sprites > 0),
        in_drawing_order(scene_batches(s)),
{
    lemma_scene_contains(s, PrimitiveBatch::Quads);
    lemma_scene_contains(s, PrimitiveBatch::Shadows);
    lemma_scene_contains(s, PrimitiveBatch::Paths);
    lemma_scene_contains(s, PrimitiveBatch::Underlines);
    lemma_scene_contains(s, PrimitiveBatch::MonochromeSprites { texture_id: t });
    lemma_scene_contains(s, PrimitiveBatch::SubpixelSprites { texture_id: t });
    lemma_scene_contains(s, PrimitiveBatch::PolychromeSprites { texture_id: t });
    lemma_scene_in_order(s);
}

/// A texture format a surface offers, as the format choice sees it.
#[derive(Copy, Clone, Debug, PartialEq, Eq, Structural)]
pub enum SurfaceFormat {
    Bgra8Unorm,
    Rgba8Unorm,
    /// Any other format, and whether it is an sRGB format.
    Other { srgb: bool },
}

/// Some format of `formats` satisfies `p`.
pub open spec fn has_format(formats: Seq<SurfaceFormat>, p: spec_fn(SurfaceFormat) -> bool) -> bool {
    exists|i: int| 0 <= i < formats.len() && p(#[trigger] formats[i])
}

/// Position of the first format of `formats` that satisfies `p`.
pub open spec fn first_format(formats: Seq<SurfaceFormat>, p: spec_fn(SurfaceFormat) -> bool) -> int {
    choose|i: int| 0 <= i < formats.len() && p(formats[i]) && forall|j: int| 0 <= j < i ==> !p(#[trigger] formats[j])
}

/// Whether a format is not sRGB.
pub open spec fn linear(f: SurfaceFormat) -> bool {
    match f {
        SurfaceFormat::Other { srgb } => !srgb,
        _ => true,
    }
}

/// Being format `g`.
pub open spec fn is_format(g: SurfaceFormat) -> spec_fn(SurfaceFormat) -> bool {
    |f: SurfaceFormat| f == g
}

/// Being a non-sRGB format.
pub open spec fn is_linear() -> spec_fn(SurfaceFormat) -> bool {
    |f: SurfaceFormat| linear(f)
}

/// The surface format to configure among the offered ones (by position):
/// BGRA8 if offered, else RGBA8, else the first non-sRGB format, else the
/// first format; `None` when nothing is offered.
pub open spec fn spec_surface_format(formats: Seq<SurfaceFormat>) -> Option<int> {
    let bgra = is_format(SurfaceFormat::Bgra8Unorm);
    let rgba = is_format(SurfaceFormat::Rgba8Unorm);
    let lin = is_linear();
    if has_format(formats, bgra) {
        Some(first_format(formats, bgra))
    } else if has_format(formats, rgba) {
        Some(first_format(formats, rgba))
    } else if has_format(formats, lin) {
        Some(first_format(formats, lin))
    } else if formats.len() > 0 {
        Some(0)
    } else {
        None
    }
}

proof fn lemma_first_format(formats: Seq<SurfaceFormat>, p: spec_fn(SurfaceFormat) -> bool, i: int)
    requires
        0 <= i < formats.len(),
        p(formats[i]),
        forall|j: int| 0 <= j < i ==> !p(#[trigger] formats[j]),
    ensures
        has_format(formats, p),
        first_format(formats, p) == i,
{
    assert(has_format(formats, p));
    let c = first_format(formats, p);
    if c < i {
        assert(!p(formats[c]));
    }
    if c > i {
        assert(!p(formats[i]));
    }
}

/// Position of the first `f` in `formats`.
fn position_of(formats: &[SurfaceFormat], f: SurfaceFormat) -> (r: Option<usize>)
    ensures
        r is None ==> forall|j: int| 0 <= j < formats@.len() ==> formats@[j] != f,
        r matches Some(i) ==> i < formats@.len() && formats@[i as int] == f
            && forall|j: int| 0 <= j < i ==> formats@[j] != f,
{
    let mut i: usize = 0;
    while i < formats.len()
        invariant
            i <= formats@.len(),
            forall|j: int| 0 <= j < i ==> formats@[j] != f,
        decreases formats@.len() - i,
    {
        if formats[i] == f {
            return Some(i);
        }
        i = i + 1;
    }
    None
}

/// The position of the surface format to configure (see
/// [`spec_surface_format`]).
pub fn choose_surface_format(formats: &[SurfaceFormat]) -> (r: Option<usize>)
    ensures
        match r {
            Some(i) => spec_surface_format(formats@) == Some(i as int),
            None => spec_surface_format(formats@) is None,
        },
{
    let ghost bgra = is_format(SurfaceFormat::Bgra8Unorm);
    let ghost rgba = is_format(SurfaceFormat::Rgba8Unorm);
    match position_of(formats, SurfaceFormat::Bgra8Unorm) {
        Some(i) => {
            proof { lemma_first_format(formats@, bgra, i as int); }
            return Some(i);
        },
        None => {
            assert(!has_format(formats@, bgra));
        },
    }
    match position_of(formats, SurfaceFormat::Rgba8Unorm) {
        Some(i) => {
            proof { lemma_first_format(formats@, rgba, i as int); }
            return Some(i);
        },
        None => {
            assert(!has_format(formats@, rgba));
        },
    }
    let mut i: usize = 0;
    while i < formats.len()
        invariant
            i <= formats@.len(),
            forall|j: int| 0 <= j < i ==> !linear(#[trigger] formats@[j]),
            !has_format(formats@, is_format(SurfaceFormat::Bgra8Unorm)),
            !has_format(formats@, is_format(SurfaceFormat::Rgba8Unorm)),
        decreases formats@.len() - i,
    {
        let lin = match formats[i] {
            SurfaceFormat::Other { srgb } => !srgb,
            _ => true,
        };
        if lin {
            proof {
                assert(linear(formats@[i as int]));
                assert forall|j: int| 0 <= j < i implies !is_linear()(#[trigger] formats@[j]) by {
                    assert(!linear(formats@[j]));
                }
                lemma_first_format(formats@, is_linear(), i as int);
            }
            return Some(i);
        }
        i = i + 1;
    }
    assert(!has_format(formats@, is_linear())) by {
        assert forall|j: int| 0 <= j < formats@.len() implies !is_linear()(#[trigger] formats@[j]) by {
            assert(!linear(formats@[j]));
        }
    }
    if formats.len() > 0 {
        Some(0)
    } else {
        None
    }
}

/// A composite alpha mode a surface offers.
#[derive(Copy, Clone, Debug, PartialEq, Eq, Structural)]
pub enum AlphaMode {
    Auto,
    Opaque,
    PreMultiplied,
    PostMultiplied,
    Inherit,
}

/// The alpha mode to use: the first of `prefs` that is offered, else the
/// first offered mode, `None` when none is offered.
pub open spec fn spec_alpha_mode(offered: Seq<AlphaMode>, prefs: Seq<AlphaMode>) -> Option<AlphaMode> {
    if exists|i: int| 0 <= i < prefs.len() && offered.contains(#[trigger] prefs[i]) {
        let i = choose|i: int| 0 <= i < prefs.len() && offered.contains(prefs[i])
            && forall|j: int| 0 <= j < i ==> !offered.contains(#[trigger] prefs[j]);
        Some(prefs[i])
    } else if offered.len() > 0 {
        Some(offered[0])
    } else {
        None
    }
}

/// The preferred alpha modes of a transparent surface.
pub open spec fn transparent_prefs() -> Seq<AlphaMode> {
    seq![AlphaMode::PreMultiplied, AlphaMode::Inherit]
}

/// The preferred alpha modes of an opaque surface.
pub open spec fn opaque_prefs() -> Seq<AlphaMode> {
    seq![AlphaMode::Opaque, AlphaMode::Inherit]
}

fn offers(offered: &[AlphaMode], m: AlphaMode) -> (r: bool)
    ensures
        r == offered@.contains(m),
{
    let mut i: usize = 0;
    while i < offered.len()
        invariant
            i <= offered@.len(),
            forall|j: int| 0 <= j < i ==> offered@[j] != m,
        decreases offered@.len() - i,
    {
        if offered[i] == m {
            assert(offered@[i as int] == m);
            return true;
        }
        i = i + 1;
    }
    false
}

/// The alpha mode for a transparent or opaque surface: premultiplied (for
/// transparent) or opaque, else inherit, else whatever is offered first.
pub fn choose_alpha_mode(offered: &[AlphaMode], transparent: bool) -> (r: Option<AlphaMode>)
    ensures
        r == spec_alpha_mode(offered@, if transparent { transparent_prefs() } else { opaque_prefs() }),
{
    let first = if transparent { AlphaMode::PreMultiplied } else { AlphaMode::Opaque };
    let ghost prefs = if transparent { transparent_prefs() } else { opaque_prefs() };
    assert(prefs[0] == first && prefs[1] == AlphaMode::Inherit && prefs.len() == 2);
    if offers(offered, first) {
        proof {
            let i = choose|i: int| 0 <= i < prefs.len() && offered@.contains(prefs[i])
                && forall|j: int| 0 <= j < i ==> !offered@.contains(#[trigger] prefs[j]);
            assert(offered@.contains(prefs[0]));
            if i > 0 {
                assert(!offered@.contains(prefs[0]));
            }
        }
        return Some(first);
    }
    if offers(offered, AlphaMode::Inherit) {
        proof {
            assert(offered@.contains(prefs[1]));
            let i = choose|i: int| 0 <= i < prefs.len() && offered@.contains(prefs[i])
                && forall|j: int| 0 <= j < i ==> !offered@.contains(#[trigger] prefs[j]);
            assert(i != 0);
        }
        return Some(AlphaMode::Inherit);
    }
    proof {
        assert forall|i: int| 0 <= i < prefs.len() implies !offered@.contains(#[trigger] prefs[i]) by {
            if i == 0 {
            } else {
                assert(i == 1);
            }
        }
    }
    if offered.len() > 0 {
        Some(offered[0])
    } else {
        None
    }
}

/// A drawable side clamped to the device limit and to at least one pixel.
pub fn clamp_surface_side(requested: u32, max: u32) -> (r: u32)
    ensures
        r == if requested < max {
            if requested > 0 { requested } else { 1 }
        } else {
            if max > 0 { max } else { 1 }
        },
{
    let m = if requested < max { requested } else { max };
    if m > 0 { m } else { 1 }
}

/// How the colour targets of the drawing pipelines blend.
#[derive(Copy, Clone, Debug, PartialEq, Eq)]
pub enum BlendMode {
    /// Premultiplied-alpha blending, for a premultiplied surface.
    PremultipliedAlpha,
    /// Straight alpha blending.
    Alpha,
}

/// The choices made when the pipelines of a surface are built.
#[derive(Copy, Clone, Debug, PartialEq, Eq)]
pub struct PipelinePlan {
    /// Blending of the colour targets.
    pub blend: BlendMode,
    /// Whether the subpixel-sprite pipeline (dual-source blending) is built.
    pub subpixel_pipeline: bool,
}

/// The pipeline plan for a surface in `alpha_mode` on a device that does or
/// does not support dual-source blending.
pub open spec fn spec_pipeline_plan(alpha_mode: AlphaMode, dual_source_blending: bool) -> PipelinePlan {
    PipelinePlan {
        blend: if alpha_mode == AlphaMode::PreMultiplied { BlendMode::PremultipliedAlpha } else { BlendMode::Alpha },
        subpixel_pipeline: dual_source_blending,
    }
}

/// Premultiplied blending exactly for a premultiplied surface; the subpixel
/// pipeline exactly when the device blends with two sources.
pub fn pipeline_plan(alpha_mode: AlphaMode, dual_source_blending: bool) -> (p: PipelinePlan)
    ensures
        p == spec_pipeline_plan(alpha_mode, dual_source_blending),
{
    let blend = match alpha_mode {
        AlphaMode::PreMultiplied => BlendMode::PremultipliedAlpha,
        _ => BlendMode::Alpha,
    };
    PipelinePlan { blend, subpixel_pipeline: dual_source_blending }
}

/// The pipeline that draws a subpixel-sprite batch.
#[derive(Copy, Clone, Debug, PartialEq, Eq)]
pub enum SpritePipeline {
    Subpixel,
    /// The monochrome-sprite pipeline, standing in where no subpixel one was
    /// built.
    Monochrome,
}

/// Subpixel sprites are drawn with their own pipeline where it was built,
/// else with the monochrome one.
pub fn subpixel_sprite_pipeline(plan: &PipelinePlan) -> (r: SpritePipeline)
    ensures
        r == if plan.subpixel_pipeline { SpritePipeline::Subpixel } else { SpritePipeline::Monochrome },
{
    if plan.subpixel_pipeline { SpritePipeline::Subpixel } else { SpritePipeline::Monochrome }
}

/// The `premultiplied_alpha` flag of the global shader parameters: 1 on a
/// premultiplied surface, else 0.
pub fn premultiplied_alpha_flag(alpha_mode: AlphaMode) -> (r: u32)
    ensures
        r == if alpha_mode == AlphaMode::PreMultiplied { 1u32 } else { 0u32 },
{
    match alpha_mode {
        AlphaMode::PreMultiplied => 1,
        _ => 0,
    }
}

/// The smallest multiple of `align` that is at least `x`.
pub open spec fn round_up(x: int, align: int) -> int {
    if x % align == 0 { x } else { x + (align - x % align) }
}

/// Layout of the uniform buffer: the frame globals at 0, the path globals
/// at the next `align` boundary after them, then the gamma parameters at the
/// next boundary after those.
pub open spec fn spec_uniform_layout(align: u64, globals_size: u64, gamma_size: u64) -> (int, int, int) {
    let path_globals_offset = round_up(globals_size as int, align as int);
    let gamma_offset = round_up(path_globals_offset + globals_size, align as int);
    (path_globals_offset, gamma_offset, gamma_offset + gamma_size)
}

fn next_multiple(x: u64, align: u64) -> (r: u64)
    requires
        align > 0,
        round_up(x as int, align as int) <= u64::MAX,
    ensures
        r == round_up(x as int, align as int),
{
    let rem = x % align;
    if rem == 0 { x } else { x + (align - rem) }
}

/// The path-globals offset, the gamma offset and the whole buffer size of
/// the uniform buffer, for the device's uniform offset alignment `align`.
pub fn uniform_layout(align: u64, globals_size: u64, gamma_size: u64) -> (r: (u64, u64, u64))
    requires
        align > 0,
        spec_uniform_layout(align, globals_size, gamma_size).2 <= u64::MAX,
    ensures
        (r.0 as int, r.1 as int, r.2 as int) == spec_uniform_layout(align, globals_size, gamma_size),
{
    let path_globals_offset = next_multiple(globals_size, align);
    let gamma_offset = next_multiple(path_globals_offset + globals_size, align);
    (path_globals_offset, gamma_offset, gamma_offset + gamma_size)
}

proof fn lemma_round_up(x: int, align: int)
    requires
        x >= 0,
        align > 0,
    ensures
        round_up(x, align) % align == 0,
        x <= round_up(x, align) < x + align,
{
    let r = x % align;
    vstd::arithmetic::div_mod::lemma_fundamental_div_mod(x, align);
    vstd::arithmetic::div_mod::lemma_mod_bound(x, align);
    if r != 0 {
        let q = x / align;
        assert(x + (align - r) == (q + 1) * align) by (nonlinear_arith)
            requires x == align * q + r;
        vstd::arithmetic::div_mod::lemma_mod_multiples_basic(q + 1, align);
    }
}

/// The uniform buffer's parts are each at an `align` boundary and do not
/// overlap: the path globals start after the frame globals end, the gamma
/// parameters after the path globals end, each within one alignment step,
/// and the buffer ends exactly where the gamma parameters end.
pub proof fn lemma_uniform_layout_aligned(align: u64, globals_size: u64, gamma_size: u64)
    requires
        align > 0,
    ensures
        ({
            let (p, g, n) = spec_uniform_layout(align, globals_size, gamma_size);
            &&& p % (align as int) == 0
            &&& g % (align as int) == 0
            &&& globals_size <= p < globals_size + align
            &&& p + globals_size <= g < p + globals_size + align
            &&& n == g + gamma_size
        }),
{
    let p = round_up(globals_size as int, align as int);
    lemma_round_up(globals_size as int, align as int);
    lemma_round_up(p + globals_size, align as int);
}

/// How acquiring the next frame's surface texture went.
#[derive(Copy, Clone, Debug, PartialEq, Eq)]
pub enum AcquireResult {
    Acquired,
    Lost,
    Outdated,
    /// Timed out, out of memory, or another failure.
    Failed,
}

/// What a frame does after acquiring its surface texture.
#[derive(Copy, Clone, Debug, PartialEq, Eq)]
pub enum FrameStart {
    Draw,
    /// The surface went away or changed: configure it again and skip the
    /// frame.
    ReconfigureAndSkip,
    /// Skip the frame.
    Skip,
}

/// The frame's start after acquisition: draw, reconfigure a lost or outdated
/// surface and skip, or skip on any other failure.
pub fn frame_start(acquired: AcquireResult) -> (r: FrameStart)
    ensures
        r == match acquired {
            AcquireResult::Acquired => FrameStart::Draw,
            AcquireResult::Lost | AcquireResult::Outdated => FrameStart::ReconfigureAndSkip,
            AcquireResult::Failed => FrameStart::Skip,
        },
{
    match acquired {
        AcquireResult::Acquired => FrameStart::Draw,
        AcquireResult::Lost | AcquireResult::Outdated => FrameStart::ReconfigureAndSkip,
        AcquireResult::Failed => FrameStart::Skip,
    }
}

/// What a frame that overflowed the instance buffer does.
#[derive(Copy, Clone, Debug, PartialEq, Eq)]
pub enum OverflowStep {
    /// Grow the instance buffer to this many bytes and encode the frame again.
    GrowTo(u64),
    /// The buffer is already at the device limit: present without the frame's
    /// contents.
    DropFrame,
}

/// The step after an overflow of a `capacity`-byte instance buffer.
pub open spec fn spec_overflow_step(capacity: u64, max_buffer_size: u64) -> OverflowStep {
    if capacity >= max_buffer_size {
        OverflowStep::DropFrame
    } else {
        OverflowStep::GrowTo(if capacity * 2 < max_buffer_size { (capacity * 2) as u64 } else { max_buffer_size })
    }
}

/// After an overflow: double the buffer, up to the device limit, and retry,
/// or drop the frame when the buffer is already at the limit.
pub fn overflow_step(capacity: u64, max_buffer_size: u64) -> (r: OverflowStep)
    requires
        capacity < max_buffer_size ==> capacity * 2 <= u64::MAX,
    ensures
        r == spec_overflow_step(capacity, max_buffer_size),
{
    if capacity >= max_buffer_size {
        return OverflowStep::DropFrame;
    }
    let doubled = capacity * 2;
    OverflowStep::GrowTo(if doubled < max_buffer_size { doubled } else { max_buffer_size })
}

/// Retrying a frame terminates: a non-empty buffer below the limit grows
/// strictly and never past the limit, and one at the limit drops the frame.
pub proof fn lemma_overflow_growth_is_bounded(capacity: u64, max_buffer_size: u64)
    ensures
        capacity >= max_buffer_size ==> spec_overflow_step(capacity, max_buffer_size) == OverflowStep::DropFrame,
        spec_overflow_step(capacity, max_buffer_size) matches OverflowStep::GrowTo(n)
            ==> capacity < max_buffer_size && n <= max_buffer_size && (capacity > 0 ==> capacity < n),
{
}

} // verus!
