//! The order in which the rendering backends are tried.

use crate::text::same_text;
use vstd::prelude::*;

verus! {

/// A rendering backend.
#[derive(Clone, Copy, Debug, PartialEq, Eq)]
pub enum Renderer {
    WgpuWebgl,
    Webgpu,
    Webgl,
    Canvas,
}

/// Which backends can be tried at all.
#[derive(Clone, Copy, Debug, PartialEq, Eq)]
pub struct Available {
    /// The wgpu backend on WebGL is built in.
    pub wgpu_webgl: bool,
    /// The wgpu backend on WebGPU is built in.
    pub webgpu: bool,
    /// The browser offers WebGPU.
    pub gpu: bool,
    /// The WebGL backend is built in.
    pub webgl: bool,
    /// The canvas backend is built in.
    pub canvas: bool,
}

/// Why no renderer was made.
#[derive(Clone, Copy, Debug, PartialEq, Eq)]
pub enum RendererError {
    /// There is no window.
    NoWindow,
    /// The window has no document.
    NoDocument,
    /// The element that was made is no canvas.
    NotACanvas,
    /// Every backend that could be tried has failed.
    NoneCreated,
}

impl RendererError {
    /// The text of the error.
    pub open spec fn text(self) -> Seq<char> {
        match self {
            RendererError::NoWindow => "Expected window"@,
            RendererError::NoDocument => "Expected document"@,
            RendererError::NotACanvas => "Expected HtmlCanvasElement"@,
            RendererError::NoneCreated => "Unable to create renderer"@,
        }
    }

    /// The text of the error.
    pub fn message(&self) -> (message: &'static str)
        ensures
            message@ == self.text(),
    {
        match self {
            RendererError::NoWindow => "Expected window",
            RendererError::NoDocument => "Expected document",
            RendererError::NotACanvas => "Expected HtmlCanvasElement",
            RendererError::NoneCreated => "Unable to create renderer",
        }
    }
}

impl Renderer {
    /// The backend that a host page names `name`.
    pub open spec fn named(name: Seq<char>) -> Option<Renderer> {
        if name == "wgpu-webgl"@ {
            Some(Renderer::WgpuWebgl)
        } else if name == "webgpu"@ {
            Some(Renderer::Webgpu)
        } else if name == "webgl"@ {
            Some(Renderer::Webgl)
        } else if name == "canvas"@ {
            Some(Renderer::Canvas)
        } else {
            None
        }
    }

    /// The place of the backend in the order without a preference.
    pub open spec fn rank(self) -> int {
        match self {
            Renderer::WgpuWebgl => 0,
            Renderer::Webgpu => 1,
            Renderer::Webgl => 2,
            Renderer::Canvas => 3,
        }
    }

    /// Whether the backend can be tried.
    pub open spec fn can_be_tried(self, available: Available) -> bool {
        match self {
            Renderer::WgpuWebgl => available.wgpu_webgl,
            Renderer::Webgpu => available.webgpu && available.gpu,
            Renderer::Webgl => available.webgl,
            Renderer::Canvas => available.canvas,
        }
    }

    /// The backend that a host page names `name`, if it is a name.
    pub fn from_name(name: &str) -> (found: Option<Renderer>)
        ensures
            found == Renderer::named(name@),
    {
        if same_text(name, "wgpu-webgl") {
            Some(Renderer::WgpuWebgl)
        } else if same_text(name, "webgpu") {
            Some(Renderer::Webgpu)
        } else if same_text(name, "webgl") {
            Some(Renderer::Webgl)
        } else if same_text(name, "canvas") {
            Some(Renderer::Canvas)
        } else {
            None
        }
    }

    /// The name by which a host page asks for the backend.
    pub fn name(&self) -> (name: &'static str)
        ensures
            Renderer::named(name@) == Some(*self),
    {
        proof {
            reveal_strlit("wgpu-webgl");
            reveal_strlit("webgpu");
            reveal_strlit("webgl");
            reveal_strlit("canvas");
        }
        match self {
            Renderer::WgpuWebgl => "wgpu-webgl",
            Renderer::Webgpu => {
                assert("webgpu"@.len() != "wgpu-webgl"@.len());
                "webgpu"
            },
            Renderer::Webgl => {
                assert("webgl"@.len() != "wgpu-webgl"@.len());
                assert("webgl"@.len() != "webgpu"@.len());
                "webgl"
            },
            Renderer::Canvas => {
                assert("canvas"@.len() != "wgpu-webgl"@.len());
                assert("canvas"@[0] != "webgpu"@[0]);
                assert("canvas"@.len() != "webgl"@.len());
                "canvas"
            },
        }
    }

    /// Whether the backend can be tried: it is built in, and for WebGPU the
    /// browser offers it.
    pub fn is_available(&self, available: &Available) -> (can: bool)
        ensures
            can == self.can_be_tried(*available),
    {
        match self {
            Renderer::WgpuWebgl => available.wgpu_webgl,
            Renderer::Webgpu => available.webgpu && available.gpu,
            Renderer::Webgl => available.webgl,
            Renderer::Canvas => available.canvas,
        }
    }
}

/// The order in which the backends are tried without a preference.
pub open spec fn default_order() -> Seq<Renderer> {
    seq![Renderer::WgpuWebgl, Renderer::Webgpu, Renderer::Webgl, Renderer::Canvas]
}

/// The order in which the backends are tried: the preferred one first, where
/// there is one, then the others in their order without a preference.
pub open spec fn order_with(preferred: Option<Renderer>) -> Seq<Renderer> {
    match preferred {
        Some(first) => default_order().remove(first.rank()).insert(0, first),
        None => default_order(),
    }
}

/// The order in which the backends are tried: the preferred one first, where
/// there is one, then the others in their order without a preference.
pub fn renderer_order(preferred: Option<Renderer>) -> (order: Vec<Renderer>)
    ensures
        order@ == order_with(preferred),
{
    let mut order: Vec<Renderer> = Vec::new();
    order.push(Renderer::WgpuWebgl);
    order.push(Renderer::Webgpu);
    order.push(Renderer::Webgl);
    order.push(Renderer::Canvas);
    assert(order@ =~= default_order());
    match preferred {
        Some(first) => {
            let at: usize = match first {
                Renderer::WgpuWebgl => 0,
                Renderer::Webgpu => 1,
                Renderer::Webgl => 2,
                Renderer::Canvas => 3,
            };
            order.remove(at);
            order.insert(0, first);
        },
        None => {},
    }
    order
}

/// The first place at or behind `from` in `order` whose backend can be tried,
/// or `None` where there is none: then no renderer can be made.
pub fn next_attempt(order: &Vec<Renderer>, from: usize, available: &Available) -> (found: Option<
    usize,
>)
    ensures
        match found {
            Some(at) => {
                &&& from <= at < order@.len()
                &&& order@[at as int].can_be_tried(*available)
                &&& forall|i: int| from <= i < at ==> !(#[trigger] order@[i]).can_be_tried(*available)
            },
            None => forall|i: int|
                from <= i < order@.len() ==> !(#[trigger] order@[i]).can_be_tried(*available),
        },
{
    let n = order.len();
    let mut i: usize = from;
    while i < n
        invariant
            n == order@.len(),
            from <= i,
            forall|j: int| from <= j < i && j < n ==> !(#[trigger] order@[j]).can_be_tried(*available),
        decreases n - i,
    {
        if order[i].is_available(available) {
            return Some(i);
        }
        i += 1;
    }
    None
}

} // verus!
