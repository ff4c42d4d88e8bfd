use vstd::prelude::*;
use crate::window_class_handle::WindowClassHandle;

verus! {

/// `WS_OVERLAPPEDWINDOW`: an ordinary top-level window with caption,
/// system menu, sizing border and minimize/maximize boxes.
pub const WS_OVERLAPPEDWINDOW: u32 = 0xCF0000;

/// The creation data for a window of a registered class, and the window
/// handle once the platform created it.  The class and window names are
/// owned copies of the class's wide name.
pub struct WindowHandle {
    pub extended_style: u32,
    pub class_handle_name: Vec<u16>,
    pub name: Vec<u16>,
    pub style: u32,
    pub x: i32,
    pub y: i32,
    pub width: i32,
    pub height: i32,
    pub parent: u64,
    pub menu: u64,
    pub instance: u64,
    pub param: u64,
    pub hwnd: Option<u64>,
}

impl WindowHandle {
    /// Builds the creation data for a plain 100 by 100 overlapped window
    /// of the given class, at the origin, with no parent, menu or
    /// creation parameter.  The window itself is created by a platform
    /// call outside the library, which records the handle in `hwnd`.
    pub fn build(class_handle: &WindowClassHandle) -> (h: WindowHandle)
        ensures
            h.extended_style == 0,
            h.class_handle_name@ == class_handle.name@,
            h.name@ == class_handle.name@,
            h.style == WS_OVERLAPPEDWINDOW,
            h.x == 0,
            h.y == 0,
            h.width == 100,
            h.height == 100,
            h.parent == 0,
            h.menu == 0,
            h.instance == class_handle.instance,
            h.param == 0,
            h.hwnd is None,
    {
        WindowHandle {
            extended_style: 0,
            class_handle_name: crate::renderer::copy_list(&class_handle.name),
            name: crate::renderer::copy_list(&class_handle.name),
            style: WS_OVERLAPPEDWINDOW,
            x: 0,
            y: 0,
            width: 100,
            height: 100,
            parent: 0,
            menu: 0,
            instance: class_handle.instance,
            param: 0,
            hwnd: None,
        }
    }
}

} // verus!
