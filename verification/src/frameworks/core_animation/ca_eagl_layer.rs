//! `CAEAGLLayer`: the frames an app presents to a layer, and the search for
//! a single opaque layer covering the screen, which lets the emulator show
//! the app's frame directly instead of compositing.
use vstd::prelude::*;

verus! {

/// What the layer search reads of one layer. Layers are numbered so that
/// every sublayer comes after its superlayer.
pub struct LayerNode {
    /// The layer object.
    pub layer: u32,
    pub hidden: bool,
    /// The layer's opacity is zero.
    pub transparent: bool,
    /// The layer is a `CAEAGLLayer`.
    pub is_eagl: bool,
    /// The layer is marked opaque.
    pub opaque: bool,
    /// The layer's frame, in screen coordinates, covers the whole screen.
    pub covers_screen: bool,
    pub needs_display: bool,
    /// Sublayers, back to front.
    pub sublayers: Vec<usize>,
}

/// A tree (or forest) of layers.
pub struct LayerTree {
    pub nodes: Vec<LayerNode>,
}

/// What the layer search reads of one window.
pub struct WindowInfo {
    pub hidden: bool,
    /// The window's layer, in the [LayerTree].
    pub layer: usize,
}

impl LayerTree {
    /// Every sublayer index lies in the tree, after its superlayer's.
    pub open spec fn wf(&self) -> bool {
        forall|i: int, k: int|
            0 <= i < self.nodes@.len() && 0 <= k < self.nodes@[i].sublayers@.len() ==> i
                < #[trigger] self.nodes@[i].sublayers@[k] < self.nodes@.len()
    }
}

/// The layer that the search ends at, starting from layer `i`: the front
/// sublayer, then its front sublayer, and so on; `None` if a hidden or
/// transparent layer is met on the way.
pub open spec fn front_descendant(nodes: Seq<LayerNode>, i: int) -> Option<int>
    decreases nodes.len() - i,
{
    if !(0 <= i < nodes.len()) {
        None
    } else if nodes[i].hidden || nodes[i].transparent {
        None
    } else if nodes[i].sublayers@.len() == 0 {
        Some(i)
    } else {
        let next = nodes[i].sublayers@.last() as int;
        if i < next < nodes.len() {
            front_descendant(nodes, next)
        } else {
            None
        }
    }
}

/// The layer of the front-most visible window, or else of the fallback
/// window.
pub open spec fn top_window_layer(windows: Seq<WindowInfo>, fallback: Option<usize>) -> Option<usize>
    decreases windows.len(),
{
    if windows.len() == 0 {
        fallback
    } else if !windows.last().hidden {
        Some(windows.last().layer)
    } else {
        top_window_layer(windows.drop_last(), fallback)
    }
}

/// The layer that the app's frames can be presented from directly, if any.
pub open spec fn fullscreen_layer(
    force_composition: bool,
    windows: Seq<WindowInfo>,
    fallback: Option<usize>,
    nodes: Seq<LayerNode>,
) -> Option<u32> {
    if force_composition {
        None
    } else {
        match top_window_layer(windows, fallback) {
            None => None,
            Some(top) => match front_descendant(nodes, top as int) {
                None => None,
                Some(d) => if nodes[d].is_eagl && nodes[d].opaque && nodes[d].covers_screen {
                    Some(nodes[d].layer)
                } else {
                    None
                },
            },
        }
    }
}

fn top_window(windows: &Vec<WindowInfo>, fallback: Option<usize>) -> (top: Option<usize>)
    ensures
        top == top_window_layer(windows@, fallback),
{
    let mut i = windows.len();
    assert(windows@.take(i as int) =~= windows@);
    while i > 0
        invariant
            i <= windows@.len(),
            top_window_layer(windows@, fallback) == top_window_layer(windows@.take(i as int), fallback),
        decreases i,
    {
        assert(windows@.take(i as int).drop_last() =~= windows@.take(i - 1));
        if !windows[i - 1].hidden {
            return Some(windows[i - 1].layer);
        }
        i = i - 1;
    }
    fallback
}

/// Finds the opaque `CAEAGLLayer` that covers the entire screen on its own,
/// so that the app's frames can be shown without compositing: the
/// front-most visible window's layer (or the fallback window's, if no window
/// is visible), followed down through the front sublayers, none hidden or
/// transparent, to one that has no sublayers, which must be a `CAEAGLLayer`
/// that is opaque and covers the screen. Returns `None` when there is no such
/// layer, or when composition is forced.
pub fn find_fullscreen_eagl_layer(
    force_composition: bool,
    windows: &Vec<WindowInfo>,
    fallback: Option<usize>,
    tree: &LayerTree,
) -> (layer: Option<u32>)
    requires
        tree.wf(),
        forall|w: int| 0 <= w < windows@.len() ==> #[trigger] windows@[w].layer < tree.nodes@.len(),
        fallback matches Some(f) ==> f < tree.nodes@.len(),
    ensures
        layer == fullscreen_layer(force_composition, windows@, fallback, tree.nodes@),
{
    if force_composition {
        return None;
    }
    let top = top_window(windows, fallback);
    let mut i = match top {
        None => {
            return None;
        },
        Some(t) => t,
    };
    proof {
        lemma_top_window_in_tree(windows@, fallback, tree.nodes@.len());
    }
    let ghost start = i as int;
    loop
        invariant
            tree.wf(),
            i < tree.nodes@.len(),
            front_descendant(tree.nodes@, i as int) == front_descendant(tree.nodes@, start),
            top matches Some(t) && t == start,
            top == top_window_layer(windows@, fallback),
            !force_composition,
        ensures
            i < tree.nodes@.len(),
            front_descendant(tree.nodes@, start) == Some(i as int),
        decreases tree.nodes@.len() - i,
    {
        let node = &tree.nodes[i];
        if node.hidden || node.transparent {
            return None;
        }
        let n = node.sublayers.len();
        if n == 0 {
            break;
        }
        let next = node.sublayers[n - 1];
        assert(i < tree.nodes@[i as int].sublayers@[n - 1]);
        i = next;
    }
    let node = &tree.nodes[i];
    if node.is_eagl && node.opaque && node.covers_screen {
        Some(node.layer)
    } else {
        None
    }
}

proof fn lemma_top_window_in_tree(windows: Seq<WindowInfo>, fallback: Option<usize>, len: nat)
    requires
        forall|w: int| 0 <= w < windows.len() ==> #[trigger] windows[w].layer < len,
        fallback matches Some(f) ==> f < len,
    ensures
        top_window_layer(windows, fallback) matches Some(t) ==> t < len,
    decreases windows.len(),
{
    if windows.len() > 0 {
        assert(windows.last() == windows[windows.len() - 1]);
        lemma_top_window_in_tree(windows.drop_last(), fallback, len);
    }
}

/// The layers below `i` (inclusive) that need redrawing, in drawing order:
/// a layer before its sublayers, hidden layers skipped with their
/// sublayers.
pub open spec fn layers_to_display(nodes: Seq<LayerNode>, i: int) -> Seq<u32>
    decreases nodes.len() - i, 1int, 0int,
{
    if !(0 <= i < nodes.len()) || nodes[i].hidden {
        Seq::empty()
    } else {
        (if nodes[i].needs_display {
            seq![nodes[i].layer]
        } else {
            Seq::empty()
        }) + sublayers_to_display(nodes, i, nodes[i].sublayers@.len() as int)
    }
}

/// [layers_to_display] for the first `k` sublayers of layer `i`.
pub open spec fn sublayers_to_display(nodes: Seq<LayerNode>, i: int, k: int) -> Seq<u32>
    decreases nodes.len() - i, 0int, k,
{
    if !(0 <= i < nodes.len()) || k <= 0 || k > nodes[i].sublayers@.len() {
        Seq::empty()
    } else {
        let child = nodes[i].sublayers@[k - 1] as int;
        sublayers_to_display(nodes, i, k - 1) + if i < child < nodes.len() {
            layers_to_display(nodes, child)
        } else {
            Seq::empty()
        }
    }
}

/// The layers from `root` down that need redrawing before compositing, in
/// drawing order (see [layers_to_display]).
pub fn display_layers(tree: &LayerTree, root: usize) -> (out: Vec<u32>)
    requires
        tree.wf(),
        root < tree.nodes@.len(),
    ensures
        out@ == layers_to_display(tree.nodes@, root as int),
    decreases tree.nodes@.len() - root, 1int, 0int,
{
    let node = &tree.nodes[root];
    let mut out: Vec<u32> = Vec::new();
    if node.hidden {
        return out;
    }
    if node.needs_display {
        out.push(node.layer);
    }
    let mut k: usize = 0;
    assert(out@ =~= (if node.needs_display {
        seq![node.layer]
    } else {
        Seq::<u32>::empty()
    }) + sublayers_to_display(tree.nodes@, root as int, 0));
    while k < node.sublayers.len()
        invariant
            tree.wf(),
            root < tree.nodes@.len(),
            *node == tree.nodes@[root as int],
            !node.hidden,
            k <= node.sublayers@.len(),
            out@ == (if node.needs_display {
                seq![node.layer]
            } else {
                Seq::<u32>::empty()
            }) + sublayers_to_display(tree.nodes@, root as int, k as int),
        decreases node.sublayers@.len() - k,
    {
        let child = node.sublayers[k];
        assert(root < tree.nodes@[root as int].sublayers@[k as int]);
        let below = display_layers(tree, child);
        let ghost before = out@;
        let mut j: usize = 0;
        while j < below.len()
            invariant
                j <= below@.len(),
                out@ == before + below@.take(j as int),
            decreases below@.len() - j,
        {
            out.push(below[j]);
            assert(below@.take(j + 1) =~= below@.take(j as int).push(below@[j as int]));
            j = j + 1;
        }
        assert(below@.take(below@.len() as int) =~= below@);
        assert(out@ =~= (if node.needs_display {
            seq![node.layer]
        } else {
            Seq::<u32>::empty()
        }) + sublayers_to_display(tree.nodes@, root as int, k + 1));
        k = k + 1;
    }
    out
}

/// The layers below `i` (inclusive) that compositing draws, by index, in
/// drawing order: a layer before its sublayers, back to front, hidden
/// layers skipped with their sublayers.
pub open spec fn layers_to_composite(nodes: Seq<LayerNode>, i: int) -> Seq<usize>
    decreases nodes.len() - i, 1int, 0int,
{
    if !(0 <= i < nodes.len()) || nodes[i].hidden {
        Seq::empty()
    } else {
        seq![i as usize] + sublayers_to_composite(nodes, i, nodes[i].sublayers@.len() as int)
    }
}

/// [layers_to_composite] for the first `k` sublayers of layer `i`.
pub open spec fn sublayers_to_composite(nodes: Seq<LayerNode>, i: int, k: int) -> Seq<usize>
    decreases nodes.len() - i, 0int, k,
{
    if !(0 <= i < nodes.len()) || k <= 0 || k > nodes[i].sublayers@.len() {
        Seq::empty()
    } else {
        let child = nodes[i].sublayers@[k - 1] as int;
        sublayers_to_composite(nodes, i, k - 1) + if i < child < nodes.len() {
            layers_to_composite(nodes, child)
        } else {
            Seq::empty()
        }
    }
}

/// The layers that compositing from `root` draws, by index, in drawing
/// order (see [layers_to_composite]).
pub fn composite_order(tree: &LayerTree, root: usize) -> (out: Vec<usize>)
    requires
        tree.wf(),
        root < tree.nodes@.len(),
    ensures
        out@ == layers_to_composite(tree.nodes@, root as int),
    decreases tree.nodes@.len() - root, 1int, 0int,
{
    let node = &tree.nodes[root];
    let mut out: Vec<usize> = Vec::new();
    if node.hidden {
        return out;
    }
    out.push(root);
    let mut k: usize = 0;
    assert(out@ =~= seq![root] + sublayers_to_composite(tree.nodes@, root as int, 0));
    while k < node.sublayers.len()
        invariant
            tree.wf(),
            root < tree.nodes@.len(),
            *node == tree.nodes@[root as int],
            !node.hidden,
            k <= node.sublayers@.len(),
            out@ == seq![root] + sublayers_to_composite(tree.nodes@, root as int, k as int),
        decreases node.sublayers@.len() - k,
    {
        let child = node.sublayers[k];
        assert(root < tree.nodes@[root as int].sublayers@[k as int]);
        let below = composite_order(tree, child);
        let ghost before = out@;
        let mut j: usize = 0;
        while j < below.len()
            invariant
                j <= below@.len(),
                out@ == before + below@.take(j as int),
            decreases below@.len() - j,
        {
            out.push(below[j]);
            assert(below@.take(j + 1) =~= below@.take(j as int).push(below@[j as int]));
            j = j + 1;
        }
        assert(below@.take(below@.len() as int) =~= below@);
        assert(out@ =~= seq![root] + sublayers_to_composite(tree.nodes@, root as int, k + 1));
        k = k + 1;
    }
    out
}

/// The frame an app has presented to a layer, and whether the
/// compositor's copy of it is current.
pub struct PresentedPixels {
    /// RGBA8 pixels, width and height.
    pub presented_pixels: Option<(Vec<u8>, u32, u32)>,
    pub gles_texture_is_up_to_date: bool,
}

/// The pixels of the frame last presented to `layer` and not yet taken
/// (none if there is none).
pub open spec fn presented_frame(layer: PresentedPixels) -> Seq<u8> {
    match layer.presented_pixels {
        Some((v, _w, _h)) => v@,
        None => Seq::<u8>::empty(),
    }
}

/// The layer once its buffer has been taken.
pub open spec fn after_take(layer: PresentedPixels) -> PresentedPixels {
    PresentedPixels { presented_pixels: None, gles_texture_is_up_to_date: layer.gles_texture_is_up_to_date }
}

/// The layer once `pixels`, `width` by `height`, have been presented to it.
pub open spec fn after_present(pixels: Vec<u8>, width: u32, height: u32) -> PresentedPixels {
    PresentedPixels { presented_pixels: Some((pixels, width, height)), gles_texture_is_up_to_date: false }
}

/// Takes the layer's pixel buffer, for the app to fill with its next frame
/// and hand back to [present_pixels]; an empty buffer if it has none.
pub fn get_pixels_vec_for_presenting(layer: &mut PresentedPixels) -> (pixels: Vec<u8>)
    ensures
        pixels@ == presented_frame(*old(layer)),
        *final(layer) == after_take(*old(layer)),
{
    match layer.presented_pixels.take() {
        Some((v, _w, _h)) => v,
        None => Vec::new(),
    }
}

/// Gives the layer a new frame rendered by the app, `width` by `height`
/// RGBA8 pixels, which the compositor then has to upload.
pub fn present_pixels(layer: &mut PresentedPixels, pixels: Vec<u8>, width: u32, height: u32)
    ensures
        *final(layer) == after_present(pixels, width, height),
{
    layer.presented_pixels = Some((pixels, width, height));
    layer.gles_texture_is_up_to_date = false;
}

/// Taking a layer's buffer right after a frame was presented to it gives
/// that frame's pixels and leaves the texture to be refreshed, and taking it
/// again gives nothing.
pub proof fn law_present_then_take(pixels: Vec<u8>, width: u32, height: u32)
    ensures
        presented_frame(after_present(pixels, width, height)) == pixels@,
        !after_take(after_present(pixels, width, height)).gles_texture_is_up_to_date,
        presented_frame(after_take(after_present(pixels, width, height))) == Seq::<u8>::empty(),
{
}

} // verus!
