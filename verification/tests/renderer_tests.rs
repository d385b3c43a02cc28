use arena_sim::config::RendererConfig;
use arena_sim::rect::Rect;
use arena_sim::renderer::{Color, DrawCommand, Renderer};

fn renderer_config() -> RendererConfig {
    RendererConfig { background_color: [10, 20, 30], object_color: [200, 100, 50] }
}

#[test]
fn rgb_is_opaque() {
    assert_eq!(Color::rgb(1, 2, 3), Color { r: 1, g: 2, b: 3, a: 255 });
}

#[test]
fn empty_scene_is_cleared_to_the_background() {
    let renderer = Renderer::new(&renderer_config());
    assert_eq!(
        renderer.draw(&[]),
        vec![
            DrawCommand::SetDrawColor(Color { r: 10, g: 20, b: 30, a: 255 }),
            DrawCommand::Clear,
            DrawCommand::SetDrawColor(Color { r: 200, g: 100, b: 50, a: 255 }),
        ]
    );
}

#[test]
fn bodies_are_filled_in_their_order() {
    let renderer = Renderer::new(&renderer_config());
    let a = Rect::new(1, 2, 3, 4);
    let b = Rect::new(-5, 6, 7, 8);
    let c = Rect::new(1, 2, 3, 4);
    assert_eq!(
        renderer.draw(&[a, b, c]),
        vec![
            DrawCommand::SetDrawColor(Color { r: 10, g: 20, b: 30, a: 255 }),
            DrawCommand::Clear,
            DrawCommand::SetDrawColor(Color { r: 200, g: 100, b: 50, a: 255 }),
            DrawCommand::FillRect(a),
            DrawCommand::FillRect(b),
            DrawCommand::FillRect(c),
        ]
    );
}

#[test]
fn colours_come_from_the_configuration() {
    let renderer = Renderer::new(&RendererConfig {
        background_color: [0, 0, 0],
        object_color: [255, 255, 255],
    });
    let commands = renderer.draw(&[Rect::new(0, 0, 1, 1)]);
    assert_eq!(commands.len(), 4);
    assert_eq!(commands[0], DrawCommand::SetDrawColor(Color { r: 0, g: 0, b: 0, a: 255 }));
    assert_eq!(commands[2], DrawCommand::SetDrawColor(Color { r: 255, g: 255, b: 255, a: 255 }));
}
