//! What the tray keeps of a StatusNotifierItem: its id, icon, title and
//! status, as read from its D-Bus properties.

use vstd::prelude::*;

verus! {

/// A pixmap of an item: width, height and ARGB32 data.
pub type Pixmap = (i32, i32, Vec<u8>);

/// A StatusNotifierItem as the tray shows it.
#[derive(Debug, Clone)]
pub struct SniItem {
    /// Cached ID
    pub id: String,
    /// Cached icon name
    pub icon_name: Option<String>,
    /// Cached icon pixmap (width, height, ARGB data)
    pub icon_pixmap: Option<Pixmap>,
    /// Cached title
    pub title: Option<String>,
    /// Cached status
    pub status: String,
}

/// The text of an optional string.
pub open spec fn opt_view(o: Option<String>) -> Option<Seq<char>> {
    match o {
        Some(s) => Some(s@),
        None => None,
    }
}

/// What a pixmap holds.
pub open spec fn pixmap_view(p: Pixmap) -> (i32, i32, Seq<u8>) {
    (p.0, p.1, p.2@)
}

/// Whether an item with this icon name is drawn from its pixmap: it has
/// no icon name, or an empty one.
pub open spec fn needs_pixmap_spec(icon_name: Option<Seq<char>>) -> bool {
    match icon_name {
        Some(n) => n.len() == 0,
        None => true,
    }
}

/// Whether the `IconPixmap` property is to be read for an item with this
/// icon name.
pub fn needs_pixmap(icon_name: &Option<String>) -> (b: bool)
    ensures
        b == needs_pixmap_spec(opt_view(*icon_name)),
{
    match icon_name {
        Some(n) => n.as_str().unicode_len() == 0,
        None => true,
    }
}

/// The pixmap an item is drawn from among those it offers: the last one
/// (usually the largest), or none when it offers none.
pub fn choose_pixmap(pixmaps: Vec<Pixmap>) -> (r: Option<Pixmap>)
    ensures
        pixmaps@.len() == 0 ==> r is None,
        pixmaps@.len() > 0 ==> (r matches Some(p) && pixmap_view(p) == pixmap_view(pixmaps@.last())),
{
    let mut pixmaps = pixmaps;
    pixmaps.pop()
}

impl SniItem {
    /// An item from the properties read when it was added (`None` for a
    /// property that could not be read). The id defaults to `unknown` and
    /// the status to `Active`; `pixmaps` is read only when the icon name
    /// calls for it (see `needs_pixmap`).
    pub fn new(
        id: Option<String>,
        icon_name: Option<String>,
        title: Option<String>,
        status: Option<String>,
        pixmaps: Option<Vec<Pixmap>>,
    ) -> (r: Self)
        ensures
            r.id@ == match id {
                Some(s) => s@,
                None => "unknown"@,
            },
            opt_view(r.icon_name) == opt_view(icon_name),
            opt_view(r.title) == opt_view(title),
            r.status@ == match status {
                Some(s) => s@,
                None => "Active"@,
            },
            match pixmaps {
                Some(ps) if needs_pixmap_spec(opt_view(icon_name)) && ps@.len() > 0 => r.icon_pixmap matches Some(p) && pixmap_view(p) == pixmap_view(ps@.last()),
                _ => r.icon_pixmap is None,
            },
    {
        let icon_pixmap = if needs_pixmap(&icon_name) {
            match pixmaps {
                Some(ps) => choose_pixmap(ps),
                None => None,
            }
        } else {
            None
        };
        SniItem {
            id: match id {
                Some(s) => s,
                None => String::from_str("unknown"),
            },
            icon_name,
            icon_pixmap,
            title,
            status: match status {
                Some(s) => s,
                None => String::from_str("Active"),
            },
        }
    }

    /// Takes in the properties read again: the icon name, title and status
    /// are replaced (the status defaulting to `Active`); the pixmap is
    /// replaced only when the icon name calls for one and some pixmap was
    /// read.
    pub fn refresh(
        &mut self,
        icon_name: Option<String>,
        title: Option<String>,
        status: Option<String>,
        pixmaps: Option<Vec<Pixmap>>,
    )
        ensures
            final(self).id@ == old(self).id@,
            opt_view(final(self).icon_name) == opt_view(icon_name),
            opt_view(final(self).title) == opt_view(title),
            final(self).status@ == match status {
                Some(s) => s@,
                None => "Active"@,
            },
            match pixmaps {
                Some(ps) if needs_pixmap_spec(opt_view(icon_name)) && ps@.len() > 0 => final(self).icon_pixmap matches Some(p) && pixmap_view(p) == pixmap_view(ps@.last()),
                _ => match (final(self).icon_pixmap, old(self).icon_pixmap) {
                    (Some(a), Some(b)) => pixmap_view(a) == pixmap_view(b),
                    (None, None) => true,
                    _ => false,
                },
            },
    {
        let needs = needs_pixmap(&icon_name);
        self.icon_name = icon_name;
        self.title = title;
        self.status = match status {
            Some(s) => s,
            None => String::from_str("Active"),
        };
        if needs {
            if let Some(ps) = pixmaps {
                if ps.len() > 0 {
                    self.icon_pixmap = choose_pixmap(ps);
                }
            }
        }
    }
}

/// The orientation word of a scroll event.
pub fn scroll_orientation(horizontal: bool) -> (o: &'static str)
    ensures
        o@ == if horizontal {
            "horizontal"@
        } else {
            "vertical"@
        },
{
    if horizontal {
        "horizontal"
    } else {
        "vertical"
    }
}

} // verus!
