//! Layer compositing: when the compositor runs, and the index data of the
//! nine-patch it draws rounded layers with. The drawing itself happens
//! around this library.
use vstd::prelude::*;
use crate::frameworks::core_animation::ca_eagl_layer::{
    find_fullscreen_eagl_layer, fullscreen_layer, LayerTree, WindowInfo,
};
use crate::frameworks::foundation::ns_timer::{advance_deadline, next_deadline};

verus! {

/// The compositor runs 60 times a second: a sixtieth of a second, to the
/// nearest nanosecond.
pub const COMPOSITE_INTERVAL_NS: u64 = 16_666_667;

/// Whether to composite now.
#[derive(Copy, Clone, Debug, PartialEq, Eq, Structural)]
pub enum Recomposite {
    /// Not yet: the next composite is due at this time.
    NotYet(u64),
    /// Now; the one after is due at this time.
    Now(u64),
}

/// Decides whether the compositor runs at time `now`, given when the next
/// run is due (`None` before the first). It runs when due, or whenever
/// `force` is set; each run moves the deadline on by whole frame periods,
/// skipping those it missed.
pub fn recomposite_schedule(recomposite_next: Option<u64>, now: u64, force: bool) -> (r: Recomposite)
    requires
        match recomposite_next {
            Some(next) => next_deadline(next, now, COMPOSITE_INTERVAL_NS) <= u64::MAX,
            None => now + COMPOSITE_INTERVAL_NS <= u64::MAX,
        },
    ensures
        r == match recomposite_next {
            Some(next) => if !force && next > now {
                Recomposite::NotYet(next)
            } else {
                Recomposite::Now(next_deadline(next, now, COMPOSITE_INTERVAL_NS) as u64)
            },
            None => Recomposite::Now((now + COMPOSITE_INTERVAL_NS) as u64),
        },
{
    match recomposite_next {
        Some(next) => {
            if !force && next > now {
                Recomposite::NotYet(next)
            } else {
                Recomposite::Now(advance_deadline(next, now, COMPOSITE_INTERVAL_NS))
            }
        },
        None => Recomposite::Now(now + COMPOSITE_INTERVAL_NS),
    }
}

/// The compositor's schedule.
pub struct State {
    /// When the next composite is due; `None` before the first.
    pub recomposite_next: Option<u64>,
}

/// What [recomposite_if_necessary] decided.
#[derive(Copy, Clone, Debug, PartialEq, Eq, Structural)]
pub enum CompositeDecision {
    /// Nothing to composite: no window is visible, or a single layer covers
    /// the screen and its frames are presented directly.
    Skip,
    /// Not due yet: the next composite is due at this time.
    NotYet(u64),
    /// Composite now; the next one is due at this time.
    Composite(u64),
}

/// Some window is not hidden.
pub open spec fn any_window_visible(windows: Seq<WindowInfo>) -> bool {
    exists|w: int| 0 <= w < windows.len() && !(#[trigger] windows[w]).hidden
}

/// When the compositor runs, given the windows and their layers and the
/// time `now`. It does nothing while no window is visible or while one
/// layer covers the screen (see [find_fullscreen_eagl_layer]); otherwise it
/// follows [recomposite_schedule], and when it runs, the schedule moves on.
pub fn recomposite_if_necessary(
    state: &mut State,
    force_composition: bool,
    windows: &Vec<WindowInfo>,
    fallback: Option<usize>,
    tree: &LayerTree,
    now: u64,
    force: bool,
) -> (d: CompositeDecision)
    requires
        tree.wf(),
        forall|w: int| 0 <= w < windows@.len() ==> #[trigger] windows@[w].layer < tree.nodes@.len(),
        fallback matches Some(f) ==> f < tree.nodes@.len(),
        match old(state).recomposite_next {
            Some(next) => next_deadline(next, now, COMPOSITE_INTERVAL_NS) <= u64::MAX,
            None => now + COMPOSITE_INTERVAL_NS <= u64::MAX,
        },
    ensures
        !any_window_visible(windows@) || fullscreen_layer(force_composition, windows@, fallback, tree.nodes@) is Some
            ==> d is Skip && final(state).recomposite_next == old(state).recomposite_next,
        any_window_visible(windows@) && fullscreen_layer(force_composition, windows@, fallback, tree.nodes@) is None
            ==> match old(state).recomposite_next {
            Some(next) => if !force && next > now {
                &&& d == CompositeDecision::NotYet(next)
                &&& final(state).recomposite_next == old(state).recomposite_next
            } else {
                let n = next_deadline(next, now, COMPOSITE_INTERVAL_NS) as u64;
                &&& d == CompositeDecision::Composite(n)
                &&& final(state).recomposite_next == Some(n)
            },
            None => {
                let n = (now + COMPOSITE_INTERVAL_NS) as u64;
                &&& d == CompositeDecision::Composite(n)
                &&& final(state).recomposite_next == Some(n)
            },
        },
{
    let mut visible = false;
    let mut w: usize = 0;
    while w < windows.len()
        invariant
            w <= windows@.len(),
            visible <==> exists|v: int| 0 <= v < w && !(#[trigger] windows@[v]).hidden,
        decreases windows@.len() - w,
    {
        if !windows[w].hidden {
            visible = true;
        }
        w = w + 1;
    }
    if !visible {
        return CompositeDecision::Skip;
    }
    if find_fullscreen_eagl_layer(force_composition, windows, fallback, tree).is_some() {
        return CompositeDecision::Skip;
    }
    match recomposite_schedule(state.recomposite_next, now, force) {
        Recomposite::NotYet(next) => CompositeDecision::NotYet(next),
        Recomposite::Now(next) => {
            state.recomposite_next = Some(next);
            CompositeDecision::Composite(next)
        },
    }
}

/// The two triangles of a square of points 0 to 3.
pub open spec fn square_indices() -> Seq<u8> {
    seq![0u8, 1u8, 2u8, 2u8, 1u8, 3u8]
}

/// The element indices of a nine-patch: the two triangles of each of its
/// nine squares, square `i` using points `4 * i` to `4 * i + 3`.
pub fn make_9patch_indices() -> (out: Vec<u8>)
    ensures
        out@.len() == 54,
        forall|i: int, k: int|
            0 <= i < 9 && 0 <= k < 6 ==> #[trigger] out@[6 * i + k] == square_indices()[k] + 4 * i,
{
    let square: [u8; 6] = [0, 1, 2, 2, 1, 3];
    assert(square@ =~= square_indices());
    let mut out: Vec<u8> = Vec::new();
    let mut i: u8 = 0;
    while i < 9
        invariant
            i <= 9,
            square@ == square_indices(),
            out@.len() == 6 * i,
            forall|i2: int, k: int|
                0 <= i2 < i && 0 <= k < 6 ==> #[trigger] out@[6 * i2 + k] == square_indices()[k] + 4 * i2,
        decreases 9 - i,
    {
        let mut k: usize = 0;
        while k < 6
            invariant
                i < 9,
                k <= 6,
                square@ == square_indices(),
                out@.len() == 6 * i + k,
                forall|i2: int, k2: int|
                    0 <= i2 < i && 0 <= k2 < 6 ==> #[trigger] out@[6 * i2 + k2] == square_indices()[k2] + 4 * i2,
                forall|k2: int| 0 <= k2 < k ==> #[trigger] out@[6 * i + k2] == square_indices()[k2] + 4 * i,
            decreases 6 - k,
        {
            out.push(square[k] + 4 * i);
            k = k + 1;
        }
        i = i + 1;
    }
    out
}


/// Where a layer's pixels come from, for its texture: the frame an app
/// presented to it, its `contents` image, or its bitmap context.
#[derive(Copy, Clone, Debug, PartialEq, Eq, Structural)]
pub struct LayerPixelSources {
    pub presented_pixels: bool,
    pub contents: bool,
    pub cg_context: bool,
}

/// A layer's texture in the compositor's context.
pub struct LayerTexture {
    /// The texture, once one has been created.
    pub texture: Option<u32>,
    /// The texture holds the layer's current pixels.
    pub up_to_date: bool,
}

/// What compositing one layer does with its texture.
#[derive(Copy, Clone, Debug, PartialEq, Eq, Structural)]
pub struct TexturePlan {
    /// The texture to bind and draw with, if the layer has pixels.
    pub bind: Option<u32>,
    /// Upload the presented frame, with alpha forced to 255 first if the
    /// layer is opaque (see [force_opaque_alpha]).
    pub upload_presented: bool,
    pub force_alpha: bool,
    /// Upload the `contents` image, or else the bitmap context.
    pub upload_contents: bool,
    pub upload_context: bool,
}

/// The layer has pixels, so it is drawn from a texture.
pub open spec fn needs_texture(src: LayerPixelSources) -> bool {
    src.presented_pixels || src.contents || src.cg_context
}

/// Decides what compositing a layer does with its texture, and updates the
/// layer's record of it. A layer with pixels is drawn from its texture,
/// created now (as `new_texture`) if it has none; the texture is filled
/// when it is not up to date: with the presented frame, and then with the
/// `contents` image or else the bitmap context. A layer with pixels but no
/// texture cannot have an up-to-date one.
pub fn texture_step(
    state: &mut LayerTexture,
    src: LayerPixelSources,
    opaque: bool,
    new_texture: u32,
) -> (plan: TexturePlan)
    requires
        needs_texture(src) && old(state).texture is None ==> !old(state).up_to_date,
    ensures
        ({
            let need = needs_texture(src);
            let update = need && !old(state).up_to_date;
            let tex = match old(state).texture {
                Some(t) => t,
                None => new_texture,
            };
            &&& plan == (TexturePlan {
                bind: if need { Some(tex) } else { None },
                upload_presented: update && src.presented_pixels,
                force_alpha: update && src.presented_pixels && opaque,
                upload_contents: update && src.contents,
                upload_context: update && !src.contents && src.cg_context,
            })
            &&& final(state).texture == if need { Some(tex) } else { old(state).texture }
            &&& final(state).up_to_date == (old(state).up_to_date || update)
        }),
        (old(state).texture is None ==> !old(state).up_to_date) ==> (final(state).texture is None
            ==> !final(state).up_to_date),
{
    let need = src.presented_pixels || src.contents || src.cg_context;
    let update = need && !state.up_to_date;
    let mut bind: Option<u32> = None;
    if need {
        let tex = match state.texture {
            Some(t) => t,
            None => new_texture,
        };
        state.texture = Some(tex);
        bind = Some(tex);
    }
    if update {
        state.up_to_date = true;
    }
    TexturePlan {
        bind,
        upload_presented: update && src.presented_pixels,
        force_alpha: update && src.presented_pixels && opaque,
        upload_contents: update && src.contents,
        upload_context: update && !src.contents && src.cg_context,
    }
}

/// Sets the alpha byte of every whole RGBA pixel in `pixels` to 255: the
/// frame of an opaque layer is RGBA, but its alpha is meant to be ignored.
pub fn force_opaque_alpha(pixels: &mut Vec<u8>)
    ensures
        final(pixels)@.len() == old(pixels)@.len(),
        forall|i: int|
            0 <= i < old(pixels)@.len() ==> #[trigger] final(pixels)@[i] == if i % 4 == 3 {
                255u8
            } else {
                old(pixels)@[i]
            },
{
    let len = pixels.len();
    let n = len / 4;
    let mut k: usize = 0;
    while k < n
        invariant
            len == old(pixels)@.len(),
            n == len / 4,
            k <= n,
            pixels@.len() == old(pixels)@.len(),
            forall|i: int|
                0 <= i < old(pixels)@.len() ==> #[trigger] pixels@[i] == if i % 4 == 3 && i < 4 * k {
                    255u8
                } else {
                    old(pixels)@[i]
                },
        decreases n - k,
    {
        assert(4 * k + 4 <= len) by (nonlinear_arith)
            requires
                k < n,
                n == len / 4,
        ;
        pixels.set(4 * k + 3, 255);
        k = k + 1;
    }
}

} // verus!
