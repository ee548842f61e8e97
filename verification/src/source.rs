//! Where the recorded pictures come from.
use vstd::prelude::*;
use crate::plan::{Element, ElementModel, Value, ValueModel};
use crate::text::{decimal, decimal_text};

verus! {

/// A rectangle of the virtual screen, in pixels.
#[derive(Debug, Clone, Copy, PartialEq, Eq, Structural)]
pub struct Region {
    pub x: u32,
    pub y: u32,
    pub width: u32,
    pub height: u32,
}

impl Region {
    /// Whether the far corner has coordinates that can be written down.
    pub open spec fn fits(self) -> bool {
        self.x + self.width <= u32::MAX && self.y + self.height <= u32::MAX
    }

    /// Whether the far corner has coordinates that can be written down.
    pub fn has_corner(&self) -> (fits: bool)
        ensures
            fits == self.fits(),
    {
        self.width <= u32::MAX - self.x && self.height <= u32::MAX - self.y
    }
}

/// Capturing an X11 screen, or a part of it.
#[derive(Debug, Clone)]
pub struct X11ScreenConfig {
    /// The X11 display (such as ":0"); `None` is the default display.
    pub display_name: Option<String>,
    /// Capture only this region instead of the whole screen.
    pub region: Option<Region>,
    /// Capture this window instead of the root window.
    pub xid: Option<u64>,
    pub show_pointer: bool,
}

/// The model of an `X11ScreenConfig`.
pub ghost struct ScreenModel {
    pub display_name: Option<Seq<char>>,
    pub region: Option<Region>,
    pub xid: Option<u64>,
    pub show_pointer: bool,
}

impl View for X11ScreenConfig {
    type V = ScreenModel;

    open spec fn view(&self) -> ScreenModel {
        ScreenModel {
            display_name: match self.display_name {
                Some(name) => Some(name@),
                None => None,
            },
            region: self.region,
            xid: self.xid,
            show_pointer: self.show_pointer,
        }
    }
}

impl ScreenModel {
    /// The whole default screen, with the pointer.
    pub open spec fn full_screen() -> ScreenModel {
        ScreenModel { display_name: None, region: None, xid: None, show_pointer: true }
    }
}

impl Default for X11ScreenConfig {
    fn default() -> (cfg: Self)
        ensures
            cfg@ == ScreenModel::full_screen(),
    {
        X11ScreenConfig { display_name: None, region: None, xid: None, show_pointer: true }
    }
}

/// What a screen-cast portal hands over: the PipeWire connection and the
/// stream on it.
#[derive(Debug, Clone, Copy, PartialEq, Eq, Structural)]
pub struct PortalSession {
    pub fd: i32,
    pub node: u32,
}

impl PortalSession {
    /// The file descriptor of the PipeWire connection.
    pub fn fd_raw(&self) -> (fd: i32)
        ensures
            fd == self.fd,
    {
        self.fd
    }

    /// The id of the stream's node.
    pub fn node_id(&self) -> (node: u32)
        ensures
            node == self.node,
    {
        self.node
    }
}

/// Capturing through the desktop portal, whose own dialog asks the user
/// what to share; so there is no region or window to choose here.
#[derive(Debug, Clone, Copy, PartialEq, Eq, Structural)]
pub struct PortalConfig {
    pub show_pointer: bool,
    /// The session, once the portal has granted one.
    pub negotiated: Option<PortalSession>,
}

impl Default for PortalConfig {
    fn default() -> (cfg: Self)
        ensures
            cfg == (PortalConfig { show_pointer: true, negotiated: None }),
    {
        PortalConfig { show_pointer: true, negotiated: None }
    }
}

/// Where the recorded pictures come from.
#[derive(Debug)]
pub enum CaptureSource {
    X11Screen(X11ScreenConfig),
    Portal(PortalConfig),
}

/// The model of a `CaptureSource`.
pub ghost enum SourceModel {
    X11Screen(ScreenModel),
    Portal(PortalConfig),
}

impl View for CaptureSource {
    type V = SourceModel;

    open spec fn view(&self) -> SourceModel {
        match self {
            CaptureSource::X11Screen(cfg) => SourceModel::X11Screen(cfg@),
            CaptureSource::Portal(cfg) => SourceModel::Portal(*cfg),
        }
    }
}

impl SourceModel {
    /// Whether a region that is set has a far corner that can be written down.
    pub open spec fn fits(self) -> bool {
        self matches SourceModel::X11Screen(cfg) ==> (cfg.region matches Some(region)
            ==> region.fits())
    }
}

/// The element for a source, with the message for when creating it fails.
#[derive(Debug)]
pub struct SourceElement {
    pub element: Element,
    pub context: &'static str,
}

/// The portal has to grant a session before there is anything to capture.
#[derive(Debug, Clone, Copy, PartialEq, Eq, Structural)]
pub struct PortalNeeded {
    pub show_pointer: bool,
}

/// The element that captures an X11 screen.
pub open spec fn ximagesrc(cfg: ScreenModel) -> ElementModel {
    let base = ElementModel::new("ximagesrc"@).with("use-damage"@, ValueModel::Bool(false)).with(
        "show-pointer"@,
        ValueModel::Bool(cfg.show_pointer),
    );
    let displayed = match cfg.display_name {
        Some(name) => base.with("display-name"@, ValueModel::Text(name)),
        None => base,
    };
    let targeted = match cfg.xid {
        Some(xid) => displayed.with("xid"@, ValueModel::Long(xid)),
        None => displayed,
    };
    match cfg.region {
        Some(r) => targeted.with("startx"@, ValueModel::Unsigned(r.x)).with(
            "starty"@,
            ValueModel::Unsigned(r.y),
        ).with("endx"@, ValueModel::Unsigned((r.x + r.width) as u32)).with(
            "endy"@,
            ValueModel::Unsigned((r.y + r.height) as u32),
        ),
        None => targeted,
    }
}

/// The element that receives a portal's stream.
pub open spec fn pipewiresrc(session: PortalSession) -> ElementModel {
    ElementModel::new("pipewiresrc"@).with("fd"@, ValueModel::Int(session.fd)).with(
        "target-object"@,
        ValueModel::Text(decimal(session.node as nat)),
    )
}

/// The element for a source and the message for when creating it fails, or
/// the session that the portal has to grant first.
pub open spec fn source_element(source: SourceModel) -> Result<
    (ElementModel, Seq<char>),
    PortalNeeded,
> {
    match source {
        SourceModel::X11Screen(cfg) => Ok(
            (
                ximagesrc(cfg),
                "failed to create 'ximagesrc' element (is gstreamer1.0-plugins-good installed?)"@,
            ),
        ),
        SourceModel::Portal(cfg) => match cfg.negotiated {
            Some(session) => Ok(
                (
                    pipewiresrc(session),
                    "failed to create 'pipewiresrc' element (is gstreamer1.0-pipewire installed?)"@,
                ),
            ),
            None => Err(PortalNeeded { show_pointer: cfg.show_pointer }),
        },
    }
}

impl CaptureSource {
    /// Whether a region that is set has a far corner that can be written
    /// down.
    pub fn has_corner(&self) -> (fits: bool)
        ensures
            fits == self@.fits(),
    {
        match self {
            CaptureSource::X11Screen(cfg) => match &cfg.region {
                Some(region) => region.has_corner(),
                None => true,
            },
            CaptureSource::Portal(_) => true,
        }
    }

    /// The element for this source. Whoever asks need not know which kind
    /// of source it stands for.
    pub fn build_element(&self) -> (source: Result<SourceElement, PortalNeeded>)
        requires
            self@.fits(),
        ensures
            match source {
                Ok(s) => source_element(self@) == Ok::<_, PortalNeeded>((s.element@, s.context@)),
                Err(needed) => source_element(self@) == Err::<(ElementModel, Seq<char>), _>(needed),
            },
    {
        match self {
            CaptureSource::X11Screen(cfg) => Ok(
                SourceElement {
                    element: build_ximagesrc(cfg),
                    context: "failed to create 'ximagesrc' element (is gstreamer1.0-plugins-good installed?)",
                },
            ),
            CaptureSource::Portal(cfg) => match cfg.negotiated {
                Some(session) => Ok(
                    SourceElement {
                        element: build_pipewiresrc(&session),
                        context: "failed to create 'pipewiresrc' element (is gstreamer1.0-pipewire installed?)",
                    },
                ),
                None => Err(PortalNeeded { show_pointer: cfg.show_pointer }),
            },
        }
    }
}

/// The element that captures an X11 screen.
pub fn build_ximagesrc(cfg: &X11ScreenConfig) -> (element: Element)
    requires
        cfg@.region matches Some(region) ==> region.fits(),
    ensures
        element@ == ximagesrc(cfg@),
{
    let mut element = Element::new("ximagesrc").with("use-damage", Value::Bool(false)).with(
        "show-pointer",
        Value::Bool(cfg.show_pointer),
    );
    if let Some(name) = &cfg.display_name {
        element = element.with("display-name", Value::Text(name.clone()));
    }
    if let Some(xid) = cfg.xid {
        element = element.with("xid", Value::Long(xid));
    }
    if let Some(region) = &cfg.region {
        element = element.with("startx", Value::Unsigned(region.x)).with(
            "starty",
            Value::Unsigned(region.y),
        ).with("endx", Value::Unsigned(region.x + region.width)).with(
            "endy",
            Value::Unsigned(region.y + region.height),
        );
    }
    element
}

/// The element that receives a portal's stream.
pub fn build_pipewiresrc(session: &PortalSession) -> (element: Element)
    ensures
        element@ == pipewiresrc(*session),
{
    Element::new("pipewiresrc").with("fd", Value::Int(session.fd_raw())).with(
        "target-object",
        Value::Text(decimal_text(session.node_id() as u64)),
    )
}

/// A region can be captured exactly if both coordinates of its far corner fit
/// in 32 bits.
pub proof fn law_regions_fit_by_their_far_corner(r: Region, cfg: ScreenModel)
    ensures
        r.fits() <==> r.x + r.width < 0x1_0000_0000 && r.y + r.height < 0x1_0000_0000,
        SourceModel::X11Screen(cfg).fits() <==> (cfg.region is None || (cfg.region->0.x
            + cfg.region->0.width < 0x1_0000_0000 && cfg.region->0.y + cfg.region->0.height
            < 0x1_0000_0000)),
{
}

/// A portal's stream always fits.
pub proof fn law_portal_streams_always_fit(cfg: PortalConfig)
    ensures
        SourceModel::Portal(cfg).fits(),
{
}

/// The full screen is the default display, whole, with the pointer.
pub proof fn law_full_screen_is_the_whole_default_display()
    ensures
        ScreenModel::full_screen().display_name is None,
        ScreenModel::full_screen().region is None,
        ScreenModel::full_screen().xid is None,
        ScreenModel::full_screen().show_pointer,
{
}

} // verus!
