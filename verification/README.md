# Sands

Sands is a 2.5D isometric dungeon crawling sandbox rendered with Vulkan. This
crate holds the game's decisions as a library verified with Verus; `app/` is
the program around it (command line, files, the window system and the GPU).

Layout of `src/`:

- `logging.rs`: log levels and which records they let through, the layout of
  a log line, the logger's file/terminal decisions (a failed file write is
  permanent), the maximum level the logger is installed with, and the search
  for a free name when an old log file is moved aside.
- `heatwave/devices.rs`: which physical devices can render to the window, the
  queue family to use, the preference order of device kinds, and the number
  of swapchain images.
- `heatwave/prelude.rs`: `WindowBuilder`, `Window` and `WindowRunner`.
- `icon.rs`: decoding the window icon into a checked RGBA image, and turning
  that into the windowing library's icon.
- `frame_loop.rs`: the event loop's decisions (when to recreate the
  swapchain, rebuild the pipeline, and which fence a frame waits on).
