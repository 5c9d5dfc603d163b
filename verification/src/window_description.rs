use vstd::prelude::*;

verus! {

/// A width and a height, in pixels.
#[derive(Clone, Copy, Debug, PartialEq, Eq, Structural)]
pub struct Size {
    pub width: u32,
    pub height: u32,
}

impl Size {
    pub fn new(width: u32, height: u32) -> (s: Self)
        ensures
            s.width == width,
            s.height == height,
    {
        Size { width, height }
    }
}

/// The title a window gets when none is given.
pub open spec fn default_title() -> Seq<char> {
    "Tuix Application"@
}

/// Passed to the window to set various window properties
pub struct WindowDescription {
    pub title: String,
    pub inner_size: Size,
    pub min_inner_size: Size,
    pub icon: Option<Vec<u8>>,
    pub icon_width: u32,
    pub icon_height: u32,
}

/// The plain values of a window description, as contracts speak of them.
pub struct WindowDescriptionView {
    pub title: Seq<char>,
    pub inner_size: Size,
    pub min_inner_size: Size,
    pub icon: Option<Seq<u8>>,
    pub icon_width: u32,
    pub icon_height: u32,
}

impl View for WindowDescription {
    type V = WindowDescriptionView;

    open spec fn view(&self) -> WindowDescriptionView {
        WindowDescriptionView {
            title: self.title@,
            inner_size: self.inner_size,
            min_inner_size: self.min_inner_size,
            icon: match self.icon {
                Some(v) => Some(v@),
                None => None,
            },
            icon_width: self.icon_width,
            icon_height: self.icon_height,
        }
    }
}

/// The description a window gets when nothing is set: an 800 by 600 window
/// that cannot shrink below 100 by 100, with no icon.
pub open spec fn default_description() -> WindowDescriptionView {
    WindowDescriptionView {
        title: default_title(),
        inner_size: Size { width: 800, height: 600 },
        min_inner_size: Size { width: 100, height: 100 },
        icon: None,
        icon_width: 0,
        icon_height: 0,
    }
}

impl Default for WindowDescription {
    fn default() -> (d: Self)
        ensures
            d@ == default_description(),
            d.title@ == "Tuix Application"@,
            d.inner_size == (Size { width: 800, height: 600 }),
            d.min_inner_size == (Size { width: 100, height: 100 }),
            d.icon is None,
            d.icon_width == 0,
            d.icon_height == 0,
    {
        WindowDescription::new()
    }
}

impl WindowDescription {
    pub fn new() -> (d: Self)
        ensures
            d@ == default_description(),
            d.title@ == "Tuix Application"@,
            d.inner_size == (Size { width: 800, height: 600 }),
            d.min_inner_size == (Size { width: 100, height: 100 }),
            d.icon is None,
            d.icon_width == 0,
            d.icon_height == 0,
    {
        let title = "Tuix Application".to_string();
        proof {
            reveal_strlit("Tuix Application");
            vstd::string::to_string_from_display_ensures_for_str("Tuix Application", title);
        }
        WindowDescription {
            title,
            inner_size: Size::new(800, 600),
            min_inner_size: Size::new(100, 100),
            icon: None,
            icon_width: 0,
            icon_height: 0,
        }
    }

    pub fn with_title(self, title: &str) -> (d: Self)
        ensures
            d@ == (WindowDescriptionView { title: title@, ..self@ }),
    {
        let mut d = self;
        let t = title.to_string();
        proof {
            vstd::string::to_string_from_display_ensures_for_str(title, t);
        }
        d.title = t;
        d
    }

    pub fn with_inner_size(self, width: u32, height: u32) -> (d: Self)
        ensures
            d@ == (WindowDescriptionView { inner_size: Size { width, height }, ..self@ }),
    {
        let mut d = self;
        d.inner_size = Size::new(width, height);
        d
    }

    pub fn with_min_inner_size(self, width: u32, height: u32) -> (d: Self)
        ensures
            d@ == (WindowDescriptionView { min_inner_size: Size { width, height }, ..self@ }),
    {
        let mut d = self;
        d.min_inner_size = Size::new(width, height);
        d
    }

    pub fn with_icon(self, icon: Vec<u8>, width: u32, height: u32) -> (d: Self)
        ensures
            d@ == (WindowDescriptionView {
                icon: Some(icon@),
                icon_width: width,
                icon_height: height,
                ..self@
            }),
    {
        let mut d = self;
        d.icon = Some(icon);
        d.icon_width = width;
        d.icon_height = height;
        d
    }
}


/// Setting the title and setting the window size do not interfere: either
/// order gives the same description.
pub proof fn title_and_size_commute(v: WindowDescriptionView, title: Seq<char>, width: u32, height: u32)
    ensures
        (WindowDescriptionView {
            inner_size: Size { width, height },
            ..(WindowDescriptionView { title, ..v })
        }) == (WindowDescriptionView {
            title,
            ..(WindowDescriptionView { inner_size: Size { width, height }, ..v })
        }),
{
}

/// Setting the size and the minimum size do not interfere: either order gives
/// the same description.
pub proof fn size_and_min_size_commute(
    v: WindowDescriptionView,
    width: u32,
    height: u32,
    min_width: u32,
    min_height: u32,
)
    ensures
        (WindowDescriptionView {
            min_inner_size: Size { width: min_width, height: min_height },
            ..(WindowDescriptionView { inner_size: Size { width, height }, ..v })
        }) == (WindowDescriptionView {
            inner_size: Size { width, height },
            ..(WindowDescriptionView { min_inner_size: Size { width: min_width, height: min_height }, ..v })
        }),
{
}

/// When the title is set twice, the last one is kept.
pub proof fn last_title_wins(v: WindowDescriptionView, first: Seq<char>, second: Seq<char>)
    ensures
        (WindowDescriptionView { title: second, ..(WindowDescriptionView { title: first, ..v }) })
            == (WindowDescriptionView { title: second, ..v }),
{
}

} // verus!
