# gpui_mobile

The platform-independent logic of a mobile (iOS / Android) platform layer for
GPUI, verified with Verus.

- `src/` — the verified library: the glyph atlas (tiles, texture slots,
  reference counts, upload queue, on top of the `etagere` shelf allocator),
  keyboard input (HID codes and modifier flags to keystrokes, Android key and
  motion events, the keyboard layout id from the input-method locale), touch
  phases, font selection and glyph-image handling,
  line-layout run grouping, the Android event-loop decisions (deferred
  initialisation callbacks, quit request), the renderer's plain-value
  decisions (primitive batches of a scene, surface format and alpha mode,
  pipeline blending and subpixel support, uniform-buffer layout, surface
  size, frame acquisition, instance-buffer growth), system chrome
  styling, the clipboard and credential stores, the device packages
  (battery, connectivity, Wi-Fi, package information, haptics, sensors,
  preferences), screen identity and the demo menu.  Laws relating several
  operations are stated as public `lemma_*` proof functions next to the
  code they are about.
- `app/` — ordinary Rust around it: JNI calls into the Android framework,
  the `wgpu` textures of the atlas, the thread-local text-input slot and the
  floating-point colour helpers.
- `tests/` — tests of the library on concrete values.
