//! Monitors and windows, from what the X server reports of them.
use vstd::prelude::*;
use crate::outside::{from_utf8_lossy, lossy_text};
use crate::paths::{law_separators_part_the_pieces, pieces, split_pieces};
use crate::source::Region;
use crate::text::{
    decimal, law_decimal_reads_back, lemma_mentions, mentions, positional, push_decimal, push_signed,
    signed_decimal,
};

verus! {

/// A monitor as it can be chosen for capture.
#[derive(Debug)]
pub struct MonitorInfo {
    pub index: usize,
    pub name: String,
    pub primary: bool,
    pub region: Region,
}

/// A window as it can be chosen for capture.
#[derive(Debug)]
pub struct WindowInfo {
    pub xid: u64,
    pub title: String,
    pub class: String,
    /// `None` if the window's place on the screen is not known, which does
    /// not stand in the way of capturing it.
    pub region: Option<Region>,
}

/// A place on the screen, as the X protocol has it.
#[derive(Debug, Clone, Copy, PartialEq, Eq, Structural)]
pub struct Geometry {
    pub x: i16,
    pub y: i16,
    pub width: u16,
    pub height: u16,
}

/// A monitor as the X server reports it.
#[derive(Debug)]
pub struct RawMonitor {
    /// The name's bytes, where the name could be had.
    pub name: Option<Vec<u8>>,
    pub primary: bool,
    pub geometry: Geometry,
}

/// A window as the X server reports it. A property that could not be had is
/// `None`; one that is not set is empty.
#[derive(Debug)]
pub struct RawWindow {
    pub xid: u32,
    /// `_NET_WM_NAME`.
    pub net_wm_name: Option<Vec<u8>>,
    /// `WM_NAME`, which matters only where `_NET_WM_NAME` is not set.
    pub wm_name: Option<Vec<u8>>,
    /// `WM_CLASS`.
    pub wm_class: Option<Vec<u8>>,
    /// The place on the screen, where it could be had.
    pub geometry: Option<Geometry>,
}

/// The model of a `MonitorInfo`.
pub ghost struct MonitorModel {
    pub index: int,
    pub name: Seq<char>,
    pub primary: bool,
    pub region: Region,
}

impl View for MonitorInfo {
    type V = MonitorModel;

    open spec fn view(&self) -> MonitorModel {
        MonitorModel {
            index: self.index as int,
            name: self.name@,
            primary: self.primary,
            region: self.region,
        }
    }
}

/// The model of a `WindowInfo`.
pub ghost struct WindowModel {
    pub xid: u64,
    pub title: Seq<char>,
    pub class: Seq<char>,
    pub region: Option<Region>,
}

impl View for WindowInfo {
    type V = WindowModel;

    open spec fn view(&self) -> WindowModel {
        WindowModel {
            xid: self.xid,
            title: self.title@,
            class: self.class@,
            region: self.region,
        }
    }
}

/// Why a query gives no answer.
#[derive(Debug)]
pub enum QueryError {
    /// The thing lies left of or above the virtual screen's origin.
    OffOrigin { what: String, x: i16, y: i16 },
    /// There is no monitor with this index.
    NoMonitor(usize),
    /// A window id of more than 32 bits.
    WindowIdTooLarge,
}

impl QueryError {
    /// What to tell the user.
    pub open spec fn text(self) -> Seq<char> {
        match self {
            QueryError::OffOrigin { what, x, y } => what@
                + " is positioned off the virtual screen's origin ("@ + signed_decimal(x as int)
                + ", "@ + signed_decimal(y as int) + "), which isn't capturable as a region"@,
            QueryError::NoMonitor(index) => "no monitor with index "@ + decimal(index as nat)
                + " (see `list-sources`)"@,
            QueryError::WindowIdTooLarge => "window id doesn't fit in 32 bits (X11 window IDs are 32-bit)"@,
        }
    }

    /// What to tell the user.
    pub fn message(&self) -> (message: String)
        ensures
            message@ == self.text(),
    {
        let mut message = String::new();
        match self {
            QueryError::OffOrigin { what, x, y } => {
                message.append(what.as_str());
                message.append(" is positioned off the virtual screen's origin (");
                push_signed(&mut message, *x as i64);
                message.append(", ");
                push_signed(&mut message, *y as i64);
                message.append("), which isn't capturable as a region");
            },
            QueryError::NoMonitor(index) => {
                message.append("no monitor with index ");
                push_decimal(&mut message, *index as u64);
                message.append(" (see `list-sources`)");
            },
            QueryError::WindowIdTooLarge => {
                message.append("window id doesn't fit in 32 bits (X11 window IDs are 32-bit)");
            },
        }
        assert(message@ =~= self.text());
        message
    }
}

impl Geometry {
    /// Whether the place does not lie left of or above the origin, where it
    /// could not be captured as a region.
    pub open spec fn on_screen(self) -> bool {
        self.x >= 0 && self.y >= 0
    }

    /// The place as a region.
    pub open spec fn region(self) -> Region {
        Region {
            x: self.x as u32,
            y: self.y as u32,
            width: self.width as u32,
            height: self.height as u32,
        }
    }
}

impl RawMonitor {
    /// The monitor's name, or a stand-in made of its index.
    pub open spec fn label(self, index: int) -> Seq<char> {
        match self.name {
            Some(bytes) => lossy_text(bytes@),
            None => "monitor-"@ + decimal(index as nat),
        }
    }

    /// What is listed for the monitor.
    pub open spec fn listed(self, index: int) -> MonitorModel {
        MonitorModel {
            index,
            name: self.label(index),
            primary: self.primary,
            region: self.geometry.region(),
        }
    }
}

/// Converts a place on the screen into a region; `what` names the thing
/// that is there.
pub fn nonneg(geometry: Geometry, what: &str) -> (region: Result<Region, QueryError>)
    ensures
        match region {
            Ok(r) => geometry.on_screen() && r == geometry.region() && r.x == geometry.x && r.y
                == geometry.y && r.width == geometry.width && r.height == geometry.height,
            Err(QueryError::OffOrigin { what: w, x, y }) => !geometry.on_screen() && w@ == what@ && x
                == geometry.x && y == geometry.y,
            Err(_) => false,
        },
{
    if geometry.x < 0 || geometry.y < 0 {
        return Err(
            QueryError::OffOrigin { what: what.to_owned(), x: geometry.x, y: geometry.y },
        );
    }
    Ok(
        Region {
            x: geometry.x as u32,
            y: geometry.y as u32,
            width: geometry.width as u32,
            height: geometry.height as u32,
        },
    )
}

/// Whether monitor `i` is the first that cannot be captured as a region.
pub open spec fn first_off_screen(raw: Seq<RawMonitor>, i: int) -> bool {
    &&& 0 <= i < raw.len() && !raw[i].geometry.on_screen()
    &&& forall|j: int| 0 <= j < i ==> (#[trigger] raw[j]).geometry.on_screen()
}

/// Lists monitors in the order that they are chosen by.
pub fn list_monitors(raw: &Vec<RawMonitor>) -> (monitors: Result<Vec<MonitorInfo>, QueryError>)
    ensures
        match monitors {
            Ok(list) => {
                &&& forall|i: int| 0 <= i < raw@.len() ==> (#[trigger] raw@[i]).geometry.on_screen()
                &&& list@.len() == raw@.len()
                &&& forall|i: int| 0 <= i < raw@.len() ==> (#[trigger] list@[i])@ == raw@[i].listed(i)
                &&& forall|i: int|
                    0 <= i < raw@.len() ==> (#[trigger] list@[i]).index == i && list@[i].primary
                        == raw@[i].primary && list@[i].region.x == raw@[i].geometry.x
                        && list@[i].region.y == raw@[i].geometry.y && list@[i].region.width
                        == raw@[i].geometry.width && list@[i].region.height
                        == raw@[i].geometry.height
            },
            Err(QueryError::OffOrigin { what, x, y }) => exists|i: int|
                {
                    &&& #[trigger] first_off_screen(raw@, i)
                    &&& 0 <= i < raw@.len() && (x < 0 || y < 0)
                    &&& forall|j: int|
                        0 <= j < i ==> (#[trigger] raw@[j]).geometry.x >= 0 && raw@[j].geometry.y
                            >= 0
                    &&& what@ == "monitor '"@ + raw@[i].label(i) + "'"@
                    &&& x == raw@[i].geometry.x && y == raw@[i].geometry.y
                },
            Err(_) => false,
        },
{
    let mut list: Vec<MonitorInfo> = Vec::new();
    let mut index: usize = 0;
    while index < raw.len()
        invariant
            index <= raw.len(),
            list@.len() == index,
            forall|i: int| 0 <= i < index ==> (#[trigger] raw@[i]).geometry.on_screen(),
            forall|i: int| 0 <= i < index ==> (#[trigger] list@[i])@ == raw@[i].listed(i),
            forall|i: int|
                0 <= i < index ==> (#[trigger] list@[i]).index == i && list@[i].primary
                    == raw@[i].primary && list@[i].region.x == raw@[i].geometry.x && list@[i].region.y
                    == raw@[i].geometry.y && list@[i].region.width == raw@[i].geometry.width
                    && list@[i].region.height == raw@[i].geometry.height,
        decreases raw.len() - index,
    {
        let m = &raw[index];
        let name = match &m.name {
            Some(bytes) => from_utf8_lossy(bytes.as_slice()),
            None => {
                let mut stand_in = String::new();
                stand_in.append("monitor-");
                push_decimal(&mut stand_in, index as u64);
                assert(stand_in@ =~= "monitor-"@ + decimal(index as nat));
                stand_in
            },
        };
        let mut what = String::new();
        what.append("monitor '");
        what.append(name.as_str());
        what.append("'");
        assert(what@ =~= "monitor '"@ + raw@[index as int].label(index as int) + "'"@);
        match nonneg(m.geometry, what.as_str()) {
            Ok(region) => {
                list.push(MonitorInfo { index, name, primary: m.primary, region });
                assert(list@[index as int]@ == raw@[index as int].listed(index as int));
            },
            Err(e) => {
                assert(first_off_screen(raw@, index as int));
                return Err(e);
            },
        }
        index = index + 1;
    }
    Ok(list)
}

/// Whether `i` is the place of the first monitor with the given index.
pub open spec fn first_with_index(monitors: Seq<MonitorInfo>, index: usize, i: int) -> bool {
    &&& 0 <= i < monitors.len() && monitors[i].index == index
    &&& forall|j: int| 0 <= j < i ==> (#[trigger] monitors[j]).index != index
}

/// The region of the monitor with the given index.
pub fn monitor_region(monitors: &Vec<MonitorInfo>, index: usize) -> (region: Result<
    Region,
    QueryError,
>)
    ensures
        match region {
            Ok(r) => exists|i: int|
                #[trigger] first_with_index(monitors@, index, i) && r == monitors@[i].region && 0 <= i
                    < monitors@.len() && monitors@[i].index == index && forall|j: int|
                    0 <= j < i ==> (#[trigger] monitors@[j]).index != index,
            Err(QueryError::NoMonitor(n)) => n == index && forall|i: int|
                0 <= i < monitors@.len() ==> (#[trigger] monitors@[i]).index != index,
            Err(_) => false,
        },
{
    let mut i: usize = 0;
    while i < monitors.len()
        invariant
            i <= monitors.len(),
            forall|j: int| 0 <= j < i ==> (#[trigger] monitors@[j]).index != index,
        decreases monitors.len() - i,
    {
        if monitors[i].index == index {
            assert(first_with_index(monitors@, index, i as int));
            return Ok(monitors[i].region);
        }
        i = i + 1;
    }
    Err(QueryError::NoMonitor(index))
}

/// Every monitor on the list is found by the index that it is listed with.
pub proof fn law_listed_monitor_is_found(
    raw: Seq<RawMonitor>,
    monitors: Seq<MonitorInfo>,
    index: usize,
    i: int,
)
    requires
        monitors.len() == raw.len(),
        forall|k: int| 0 <= k < raw.len() ==> (#[trigger] monitors[k])@ == raw[k].listed(k),
        index < raw.len(),
        first_with_index(monitors, index, i),
    ensures
        i == index,
        monitors[i].region == raw[i].geometry.region(),
{
    assert(monitors[i]@ == raw[i].listed(i));
    assert(monitors[i]@.index == i);
}

/// A region that comes from the X protocol has a far corner that can be
/// written down.
pub proof fn law_protocol_regions_fit(geometry: Geometry)
    requires
        geometry.on_screen(),
    ensures
        geometry.region().fits(),
{
}

/// A window id as the X protocol has it.
pub fn window_id(xid: u64) -> (id: Result<u32, QueryError>)
    ensures
        match id {
            Ok(n) => n == xid,
            Err(QueryError::WindowIdTooLarge) => xid > u32::MAX,
            Err(_) => false,
        },
{
    if xid <= u32::MAX as u64 {
        Ok(xid as u32)
    } else {
        Err(QueryError::WindowIdTooLarge)
    }
}

/// Whether the window `xid` is there, where `replied` says whether the X
/// server had anything to say of it.
pub fn window_exists(xid: u64, replied: bool) -> (there: Result<bool, QueryError>)
    ensures
        match there {
            Ok(t) => xid <= u32::MAX && t == replied,
            Err(QueryError::WindowIdTooLarge) => xid > u32::MAX,
            Err(_) => false,
        },
{
    match window_id(xid) {
        Ok(_) => Ok(replied),
        Err(e) => Err(e),
    }
}

/// The title of a window: `_NET_WM_NAME`, or where that is not set,
/// `WM_NAME`.
pub open spec fn title_of(net: Option<Seq<u8>>, legacy: Option<Seq<u8>>) -> Option<Seq<char>> {
    match net {
        None => None,
        Some(name) => if name.len() > 0 {
            Some(lossy_text(name))
        } else {
            match legacy {
                None => None,
                Some(old) => if old.len() > 0 {
                    Some(lossy_text(old))
                } else {
                    None
                },
            }
        },
    }
}

/// The class of a window. `WM_CLASS` holds two strings, each ended by a nul:
/// instance and class. The class says more reliably which application it is.
pub open spec fn class_of(property: Seq<u8>) -> Option<Seq<char>> {
    let parts = pieces(property, 0);
    if parts.len() > 1 {
        Some(lossy_text(parts[1]))
    } else if parts.len() == 1 {
        Some(lossy_text(parts[0]))
    } else {
        None
    }
}

/// The bytes of a property that may be missing.
pub open spec fn property(p: Option<Vec<u8>>) -> Option<Seq<u8>> {
    match p {
        Some(bytes) => Some(bytes@),
        None => None,
    }
}

/// The title of a window, from its two properties.
pub fn window_title(net: &Option<Vec<u8>>, legacy: &Option<Vec<u8>>) -> (title: Option<String>)
    ensures
        match title {
            Some(t) => title_of(property(*net), property(*legacy)) == Some(t@),
            None => title_of(property(*net), property(*legacy)) is None,
        },
{
    match net {
        None => None,
        Some(name) => {
            if name.len() > 0 {
                return Some(from_utf8_lossy(name.as_slice()));
            }
            match legacy {
                None => None,
                Some(old) => {
                    if old.len() > 0 {
                        Some(from_utf8_lossy(old.as_slice()))
                    } else {
                        None
                    }
                },
            }
        },
    }
}

/// The class of a window, from `WM_CLASS`.
pub fn window_class(property: &[u8]) -> (class: Option<String>)
    ensures
        match class {
            Some(c) => class_of(property@) == Some(c@),
            None => class_of(property@) is None,
        },
{
    let parts = split_pieces(property, 0);
    let ghost found = pieces(property@, 0);
    assert(parts@.len() == found.len());
    if parts.len() > 1 {
        assert(found[1] == parts@.map_values(|p: Vec<u8>| p@)[1]);
        Some(from_utf8_lossy(parts[1].as_slice()))
    } else if parts.len() == 1 {
        assert(found[0] == parts@.map_values(|p: Vec<u8>| p@)[0]);
        Some(from_utf8_lossy(parts[0].as_slice()))
    } else {
        None
    }
}

impl RawWindow {
    /// What is listed for the window.
    pub open spec fn listed(self) -> WindowModel {
        WindowModel {
            xid: self.xid as u64,
            title: match title_of(property(self.net_wm_name), property(self.wm_name)) {
                Some(t) => t,
                None => "(untitled)"@,
            },
            class: match self.wm_class {
                Some(bytes) => match class_of(bytes@) {
                    Some(c) => c,
                    None => "(unknown)"@,
                },
                None => "(unknown)"@,
            },
            region: match self.geometry {
                Some(g) => if g.on_screen() {
                    Some(g.region())
                } else {
                    None
                },
                None => None,
            },
        }
    }
}

/// Lists windows in the order that the window manager has them in.
pub fn list_windows(raw: &Vec<RawWindow>) -> (windows: Vec<WindowInfo>)
    ensures
        windows@.len() == raw@.len(),
        forall|i: int| 0 <= i < raw@.len() ==> (#[trigger] windows@[i])@ == raw@[i].listed(),
        forall|i: int| 0 <= i < raw@.len() ==> (#[trigger] windows@[i]).xid == raw@[i].xid,
{
    let mut windows: Vec<WindowInfo> = Vec::new();
    let mut i: usize = 0;
    while i < raw.len()
        invariant
            i <= raw.len(),
            windows@.len() == i,
            forall|j: int| 0 <= j < i ==> (#[trigger] windows@[j])@ == raw@[j].listed(),
            forall|j: int| 0 <= j < i ==> (#[trigger] windows@[j]).xid == raw@[j].xid,
        decreases raw.len() - i,
    {
        let w = &raw[i];
        let title = match window_title(&w.net_wm_name, &w.wm_name) {
            Some(title) => title,
            None => "(untitled)".to_owned(),
        };
        let found = match &w.wm_class {
            Some(bytes) => window_class(bytes.as_slice()),
            None => None,
        };
        let class = match found {
            Some(class) => class,
            None => "(unknown)".to_owned(),
        };
        let region = match w.geometry {
            Some(geometry) => match nonneg(geometry, "window") {
                Ok(region) => Some(region),
                Err(_) => None,
            },
            None => None,
        };
        windows.push(WindowInfo { xid: w.xid as u64, title, class, region });
        assert(windows@[i as int]@ == raw@[i as int].listed());
        i = i + 1;
    }
    windows
}

/// Every monitor is listed as the X server reports it: its flag, its place
/// and its size, and its name, or a stand-in with the index that it is listed
/// under.
pub proof fn law_monitors_are_listed_as_reported(raw: RawMonitor, index: int)
    requires
        0 <= index,
        raw.geometry.x >= 0 && raw.geometry.y >= 0,
    ensures
        raw.listed(index).primary == raw.primary,
        raw.listed(index).index == index,
        raw.listed(index).region.x == raw.geometry.x,
        raw.listed(index).region.y == raw.geometry.y,
        raw.listed(index).region.width == raw.geometry.width,
        raw.listed(index).region.height == raw.geometry.height,
        raw.name matches Some(bytes) ==> raw.listed(index).name == lossy_text(bytes@),
        raw.name is None ==> raw.listed(index).name.take("monitor-"@.len() as int) == "monitor-"@
            && positional(raw.listed(index).name.skip("monitor-"@.len() as int), 10) == index,
{
    if raw.name is None {
        law_decimal_reads_back(index as nat);
        let name = raw.listed(index).name;
        assert(name.take("monitor-"@.len() as int) =~= "monitor-"@);
        assert(name.skip("monitor-"@.len() as int) =~= decimal(index as nat));
    }
}

/// Only a place left of the origin or above it cannot be captured as a
/// region.
pub proof fn law_places_on_screen_are_right_of_and_below_the_origin(geometry: Geometry)
    ensures
        geometry.on_screen() <==> 0 <= geometry.x && 0 <= geometry.y,
        geometry.on_screen() ==> geometry.region().x == geometry.x && geometry.region().y
            == geometry.y && geometry.region().width == geometry.width && geometry.region().height
            == geometry.height,
{
}

/// Every window is listed under its own id, with its place if that is known
/// and can be captured, and without one otherwise.
pub proof fn law_windows_are_listed_where_they_are(raw: RawWindow)
    ensures
        raw.listed().xid == raw.xid,
        raw.listed().region is Some <==> (raw.geometry matches Some(g) && g.x >= 0 && g.y >= 0),
        raw.listed().region matches Some(r) ==> (raw.geometry matches Some(g) && r.x == g.x && r.y
            == g.y && r.width == g.width && r.height == g.height),
{
}

/// A window is listed with the first of its two names that is set, where
/// both can be had; one without a name is listed as untitled.
pub proof fn law_windows_are_listed_by_name(raw: RawWindow, net: Vec<u8>, legacy: Vec<u8>)
    ensures
        raw.net_wm_name is None ==> raw.listed().title == "(untitled)"@,
        raw.net_wm_name == Some(net) && net@.len() > 0 ==> raw.listed().title == lossy_text(net@),
        raw.net_wm_name == Some(net) && net@.len() == 0 && raw.wm_name == Some(legacy)
            && legacy@.len() > 0 ==> raw.listed().title == lossy_text(legacy@),
        raw.net_wm_name == Some(net) && net@.len() == 0 && raw.wm_name == Some(legacy)
            && legacy@.len() == 0 ==> raw.listed().title == "(untitled)"@,
        raw.net_wm_name == Some(net) && net@.len() == 0 && raw.wm_name is None
            ==> raw.listed().title == "(untitled)"@,
{
}

/// Of a window's instance and class, each ended by a nul, the class is
/// listed; an instance alone stands in for it.
pub proof fn law_windows_are_listed_by_class(
    raw: RawWindow,
    property: Vec<u8>,
    instance: Seq<u8>,
    class: Seq<u8>,
)
    requires
        raw.wm_class == Some(property),
        instance.len() > 0 && class.len() > 0,
        forall|i: int| 0 <= i < instance.len() ==> #[trigger] instance[i] != 0,
        forall|i: int| 0 <= i < class.len() ==> #[trigger] class[i] != 0,
    ensures
        property@ == instance.push(0) + class.push(0) ==> raw.listed().class == lossy_text(class),
        property@ == instance.push(0) + class ==> raw.listed().class == lossy_text(class),
        property@ == instance.push(0) || property@ == instance ==> raw.listed().class == lossy_text(
            instance,
        ),
        property@.len() == 0 ==> raw.listed().class == "(unknown)"@,
{
    law_separators_part_the_pieces(seq![], instance, 0);
    assert(Seq::<u8>::empty() + instance =~= instance);
    let first = instance.push(0);
    law_separators_part_the_pieces(first, class, 0);
    assert((first + class).push(0) =~= first + class.push(0));
    assert(pieces(instance, 0) =~= seq![instance]);
    assert(pieces(first + class, 0) =~= seq![instance, class]);
}

/// A window without a class that can be had is listed as unknown.
pub proof fn law_windows_without_a_class_are_unknown(raw: RawWindow)
    requires
        raw.wm_class is None,
    ensures
        raw.listed().class == "(unknown)"@,
{
}

/// What goes wrong with a query is told with what it is about: the thing and
/// its place, or the index.
pub proof fn law_query_errors_say_what_they_are_about(error: QueryError)
    ensures
        error matches QueryError::OffOrigin { what, x, y } ==> error.text().take(
            what@.len() as int,
        ) == what@ && mentions(
            error.text(),
            "origin ("@ + signed_decimal(x as int) + ", "@ + signed_decimal(y as int) + ")"@,
        ),
        error matches QueryError::NoMonitor(index) ==> mentions(
            error.text(),
            "no monitor with index "@ + decimal(index as nat),
        ),
{
    match error {
        QueryError::OffOrigin { what, x, y } => {
            reveal_strlit(" is positioned off the virtual screen's origin (");
            reveal_strlit("), which isn't capturable as a region");
            reveal_strlit("origin (");
            reveal_strlit(")");
            assert(error.text().take(what@.len() as int) =~= what@);
            let part = "origin ("@ + signed_decimal(x as int) + ", "@ + signed_decimal(y as int)
                + ")"@;
            let before = what@ + " is positioned off the virtual screen's origin ("@.take(40);
            let after = "), which isn't capturable as a region"@.skip(1);
            assert(error.text() =~= before + part + after);
            lemma_mentions(before, part, after);
        },
        QueryError::NoMonitor(index) => {
            let part = "no monitor with index "@ + decimal(index as nat);
            assert(error.text() =~= Seq::<char>::empty() + part + " (see `list-sources`)"@);
            lemma_mentions(seq![], part, " (see `list-sources`)"@);
        },
        _ => {},
    }
}

/// A title is the first of the two names that is set; where the first could
/// not be had there is none, nor where the second is needed and could not.
pub proof fn law_titles_are_the_first_name_set(net: Seq<u8>, legacy: Option<Seq<u8>>)
    ensures
        net.len() > 0 ==> title_of(Some(net), legacy) == Some(lossy_text(net)),
        net.len() == 0 ==> title_of(Some(net), legacy) == (if legacy is Some && legacy->0.len() > 0 {
            Some(lossy_text(legacy->0))
        } else {
            None
        }),
        title_of(None, legacy) is None,
{
}

/// A class is the second of the strings that a nul ends, or the first where
/// there is no second; nuls alone hold none.
pub proof fn law_classes_are_the_second_string(instance: Seq<u8>, class: Seq<u8>)
    requires
        instance.len() > 0 && class.len() > 0,
        forall|i: int| 0 <= i < instance.len() ==> #[trigger] instance[i] != 0,
        forall|i: int| 0 <= i < class.len() ==> #[trigger] class[i] != 0,
    ensures
        class_of(instance.push(0) + class.push(0)) == Some(lossy_text(class)),
        class_of(instance.push(0) + class) == Some(lossy_text(class)),
        class_of(instance.push(0)) == Some(lossy_text(instance)),
        class_of(instance) == Some(lossy_text(instance)),
        class_of(Seq::<u8>::empty()) is None,
        class_of(seq![0u8]) is None,
{
    law_separators_part_the_pieces(seq![], instance, 0);
    assert(Seq::<u8>::empty() + instance =~= instance);
    let first = instance.push(0);
    law_separators_part_the_pieces(first, class, 0);
    assert((first + class).push(0) =~= first + class.push(0));
    assert(pieces(instance, 0) =~= seq![instance]);
    assert(pieces(first + class, 0) =~= seq![instance, class]);
    assert(seq![0u8].drop_last() =~= Seq::<u8>::empty());
}

/// The bytes of a property are what they are.
pub proof fn law_properties_are_their_bytes(p: Option<Vec<u8>>)
    ensures
        p matches Some(bytes) ==> property(p) == Some(bytes@),
        p is None ==> property(p) is None,
{
}

} // verus!
