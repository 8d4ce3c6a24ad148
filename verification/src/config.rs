use vstd::prelude::*;

verus! {

/// The configuration that a user gives the winit backend.
#[derive(Debug)]
pub struct WinitConfig {
    /// The window's title.
    pub title: String,
    /// On the web: the id of the canvas element that becomes the window.
    /// It must not be empty; by default it is `egui_canvas`, so the page must
    /// hold a canvas element with that id.
    pub dom_element_id: Option<String>,
}

impl Default for WinitConfig {
    /// A window titled "egui winit window", on the canvas `egui_canvas`.
    fn default() -> (config: Self)
        ensures
            config.title@ == "egui winit window"@,
            config.dom_element_id matches Some(id) && id@ == "egui_canvas"@,
    {
        WinitConfig {
            title: "egui winit window".to_owned(),
            dom_element_id: Some("egui_canvas".to_owned()),
        }
    }
}

} // verus!
