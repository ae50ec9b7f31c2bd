# xp_layer

The verified core of a Windows XP compatibility layer.

- `config`: the memory size shown to XP-era programs, derived from the host's RAM.
- `api::kernel32::memory`: `GlobalMemoryStatus` and `GlobalMemoryStatusEx`.
- `cpu::check`: the host CPU policy (GenuineIntel of the Core 2 era or newer only).
- `cpu::emu`: a tiny 32-bit x86 interpreter over a loaded image.
- `pe`: parsing and mapping of 32-bit PE files from their bytes, and their import tables.
- `picker`: the decisions and status texts of the application picker.
- `text`, `bytes`: number formatting, text order, little-endian reads.

`app/main.rs` is the egui window: it reads directories and files and hands
their contents to the library.
