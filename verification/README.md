# fractal_clock

A fractal clock drawn with wgpu: the branches of the fractal are computed on
the GPU by compute shaders, and the hands and tick marks of a clock are drawn
over them.

- `src/` is a Verus library with the clock's rules, each with its contract:
  - `geometry`: vertex counts per depth (`3^(depth + 1) / 2`), buffer sizes,
    compute dispatch grids and the drawn index range;
  - `layout`: the vertex layouts of the fractal and of the clock rays;
  - `dial`: the tick marks and where the rays go in the clock buffer;
  - `hue`: which HSV term each colour channel takes in each sector;
  - `clock_time`: the local time of day (through the `time` crate) and the
    positions of the hands;
  - `controls`: the arrow keys that change the depth.
- `tests/` runs the library on concrete values.
- `app/` is the window and the GPU work (winit, wgpu, pollster, bytemuck),
  with the floating-point colour and angle arithmetic. It reads the WGSL
  shaders `fractal.wgsl`, `clock.wgsl`, `vertices.wgsl` and `indices.wgsl`
  from a `shaders` directory beside the executable or in the working
  directory.
