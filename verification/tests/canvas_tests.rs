use pathtracer::canvas::{CanvasConfig, Resolution};
use pathtracer::render::RenderConfig;

#[test]
fn preset_heights() {
    assert_eq!(Resolution::_240p.height(), 240);
    assert_eq!(Resolution::_360p.height(), 360);
    assert_eq!(Resolution::_480p.height(), 480);
    assert_eq!(Resolution::_720p.height(), 720);
    assert_eq!(Resolution::_1080p.height(), 1080);
    assert_eq!(Resolution::_2K.height(), 1440);
    assert_eq!(Resolution::_4K.height(), 2160);
    assert_eq!(Resolution::_5K.height(), 2880);
}

#[test]
fn preset_widths_follow_16_9() {
    assert_eq!(CanvasConfig::new(Resolution::_240p).width(), 426);
    assert_eq!(CanvasConfig::new(Resolution::_360p).width(), 640);
    assert_eq!(CanvasConfig::new(Resolution::_480p).width(), 853);
    assert_eq!(CanvasConfig::new(Resolution::_720p).width(), 1280);
    assert_eq!(CanvasConfig::new(Resolution::_1080p).width(), 1920);
    assert_eq!(CanvasConfig::new(Resolution::_2K).width(), 2560);
    assert_eq!(CanvasConfig::new(Resolution::_4K).width(), 3840);
    assert_eq!(CanvasConfig::new(Resolution::_5K).width(), 5120);
}

#[test]
fn canvas_keeps_its_resolution() {
    let c = CanvasConfig::new(Resolution::_720p);
    assert_eq!(c.resolution, Resolution::_720p);
    assert_eq!(c.height(), 720);
}

#[test]
fn render_config_takes_canvas_dimensions() {
    let rc = RenderConfig::new(Resolution::_240p, 500, 50);
    assert_eq!(rc.height, 240);
    assert_eq!(rc.width, 426);
    assert_eq!(rc.samples_per_pixel, 500);
    assert_eq!(rc.max_depth, 50);
}
