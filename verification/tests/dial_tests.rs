use fractal_clock::controls::{depth_after_key, DepthKey};
use fractal_clock::dial::{
    tick_marks, TickMark, CLOCK_BUFFER_SIZE, CLOCK_RAY_BYTES, CLOCK_RAY_COUNT, HAND_RAY_COUNT,
    TICK_RAYS_OFFSET, TICK_RAY_COUNT,
};
use fractal_clock::hue::HsvTerm::{Falling, Floor, Rising, Value};
use fractal_clock::hue::{hsv_sector_terms, HsvTerm};
use fractal_clock::layout::{
    clock_ray_vertex_attributes, fractal_vertex_attributes, StepMode, VertexAttribute,
    VertexFormat,
};

#[test]
fn tick_marks_order() {
    let ticks = tick_marks();
    assert_eq!(ticks.len() as u64, TICK_RAY_COUNT);
    assert_eq!(ticks[0], TickMark { minute: 0, is_hour: true });
    assert_eq!(ticks[1], TickMark { minute: 0, is_hour: false });
    assert_eq!(ticks[5], TickMark { minute: 4, is_hour: false });
    assert_eq!(ticks[6], TickMark { minute: 5, is_hour: true });
    assert_eq!(ticks[7], TickMark { minute: 5, is_hour: false });
    assert_eq!(ticks[71], TickMark { minute: 59, is_hour: false });
}

#[test]
fn one_minute_tick_per_minute() {
    let ticks = tick_marks();
    for minute in 0..60u32 {
        let count = ticks.iter().filter(|t| !t.is_hour && t.minute == minute).count();
        assert_eq!(count, 1);
        let hours = ticks.iter().filter(|t| t.is_hour && t.minute == minute).count();
        assert_eq!(hours, if minute % 5 == 0 { 1 } else { 0 });
    }
}

#[test]
fn rays_fill_clock_buffer() {
    assert_eq!(HAND_RAY_COUNT + TICK_RAY_COUNT, CLOCK_RAY_COUNT as u64);
    assert_eq!(TICK_RAYS_OFFSET, 48);
    assert_eq!(TICK_RAYS_OFFSET + TICK_RAY_COUNT * CLOCK_RAY_BYTES, CLOCK_BUFFER_SIZE);
    assert_eq!(CLOCK_BUFFER_SIZE, 1200);
}

#[test]
fn hsv_sectors() {
    assert_eq!(hsv_sector_terms(0), (Value, Rising, Floor));
    assert_eq!(hsv_sector_terms(1), (Falling, Value, Floor));
    assert_eq!(hsv_sector_terms(2), (Floor, Value, Rising));
    assert_eq!(hsv_sector_terms(3), (Floor, Falling, Value));
    assert_eq!(hsv_sector_terms(4), (Rising, Floor, Value));
    assert_eq!(hsv_sector_terms(5), (Value, Floor, Falling));
    // A hue of exactly one turn wraps to the first sector.
    assert_eq!(hsv_sector_terms(6), (Value, Rising, Floor));
}

#[test]
fn each_sector_has_one_value_and_one_floor() {
    for sextant in 0..6 {
        let (r, g, b) = hsv_sector_terms(sextant);
        let terms = [r, g, b];
        assert_eq!(terms.iter().filter(|t| **t == HsvTerm::Value).count(), 1);
        assert_eq!(terms.iter().filter(|t| **t == HsvTerm::Floor).count(), 1);
        let third = if sextant % 2 == 0 { HsvTerm::Rising } else { HsvTerm::Falling };
        assert_eq!(terms.iter().filter(|t| **t == third).count(), 1);
    }
}

#[test]
fn fractal_layout() {
    let layout = fractal_vertex_attributes();
    assert_eq!(layout.array_stride, 16);
    assert_eq!(layout.step_mode, StepMode::Vertex);
    assert_eq!(
        layout.attributes,
        vec![
            VertexAttribute { format: VertexFormat::Float32x2, offset: 0, shader_location: 0 },
            VertexAttribute { format: VertexFormat::Float32, offset: 8, shader_location: 1 },
            VertexAttribute { format: VertexFormat::Float32, offset: 12, shader_location: 2 },
        ]
    );
}

#[test]
fn clock_ray_layout() {
    let layout = clock_ray_vertex_attributes();
    assert_eq!(layout.array_stride, 16);
    assert_eq!(layout.step_mode, StepMode::Instance);
    assert_eq!(layout.attributes.len(), 4);
    for (i, attribute) in layout.attributes.iter().enumerate() {
        assert_eq!(
            *attribute,
            VertexAttribute {
                format: VertexFormat::Float32,
                offset: 4 * i as u64,
                shader_location: i as u32
            }
        );
    }
}

#[test]
fn layouts_are_packed() {
    for layout in [fractal_vertex_attributes(), clock_ray_vertex_attributes()] {
        let mut offset = 0;
        for (i, attribute) in layout.attributes.iter().enumerate() {
            assert_eq!(attribute.offset, offset);
            assert_eq!(attribute.shader_location, i as u32);
            offset += attribute.format.byte_size();
        }
        assert_eq!(layout.array_stride, offset);
    }
}

#[test]
fn depth_keys() {
    assert_eq!(depth_after_key(4, DepthKey::Up), 5);
    assert_eq!(depth_after_key(4, DepthKey::Down), 3);
    assert_eq!(depth_after_key(1, DepthKey::Down), 1);
    assert_eq!(depth_after_key(0, DepthKey::Down), 0);
}

#[test]
fn depth_keys_undo_each_other() {
    for depth in 1..100u32 {
        assert_eq!(depth_after_key(depth_after_key(depth, DepthKey::Up), DepthKey::Down), depth);
        if depth >= 2 {
            assert_eq!(
                depth_after_key(depth_after_key(depth, DepthKey::Down), DepthKey::Up),
                depth
            );
        }
    }
    // From depth one, down then up does not come back.
    assert_eq!(depth_after_key(depth_after_key(1, DepthKey::Down), DepthKey::Up), 2);
}
