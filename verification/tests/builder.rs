use sands::heatwave::prelude::WindowBuilder;
use winit::window::Icon;

#[test]
fn new_builder_defaults() {
    let builder = WindowBuilder::new();
    assert_eq!(builder.window_title(), "Heatwave App");
    assert_eq!(builder.requested_buffer_count(), 2);
    assert!(builder.window_icon().is_none());
    assert_eq!(builder.preferred_device(), None);
}

#[test]
fn default_builder_is_empty() {
    let builder = WindowBuilder::default();
    assert_eq!(builder.window_title(), "");
    assert_eq!(builder.requested_buffer_count(), 0);
    assert!(builder.window_icon().is_none());
    assert_eq!(builder.preferred_device(), None);
}

#[test]
fn setters_chain_and_change_one_field_each() {
    let icon = Icon::from_rgba(vec![0, 0, 0, 255], 1, 1).unwrap();
    let mut builder = WindowBuilder::new();
    builder.title("Sands".to_owned()).icon(icon).buffer_count(3);
    assert_eq!(builder.window_title(), "Sands");
    assert!(builder.window_icon().is_some());
    assert_eq!(builder.requested_buffer_count(), 3);
    assert_eq!(builder.preferred_device(), None);
    builder.with_physical_device(4242);
    assert_eq!(builder.preferred_device(), Some(4242));
    assert_eq!(builder.window_title(), "Sands");
    assert_eq!(builder.requested_buffer_count(), 3);
}
