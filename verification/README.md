# touchhle

The core of an iPhone OS app emulator, verified with Verus: guest memory,
the guest calling convention, the dynamic linker, the OpenGL ES 1.1 layer's
bookkeeping and argument rules, and the state of the emulated frameworks.
Every function in `src/` carries a contract that Verus proves, except three
small trusted items that read property lists with the `plist` crate; the laws that
relate several functions (a read gives back a write, a host call restores
the registers, a created guest function dispatches to its host function,
and so on) are public proof functions.

Layout:

- `src/mem.rs`: guest memory and its bump allocator.
- `src/cpu.rs`, `src/abi.rs`: the register model, branches, and passing
  arguments and results between host and guest code.
- `src/mach_o.rs`, `src/dyld.rs`: what the linker reads of a binary, and
  lazy, non-lazy and late linking.
- `src/gles/`: the OpenGL ES 1.1 on OpenGL 2.1 layer's fixed-point
  bookkeeping, its parameter tables and argument checks, paletted textures,
  and frame counting.
- `src/frameworks/`: Foundation, Core Foundation, Core Animation, UIKit and
  the other frameworks, as far as they hold state or make decisions of their
  own.
- `app/`: what runs around the library: the clock, floating-point
  conversions, the table of built-in replacement functions and the symbol
  dumps.
- `tests/`: tests run against the compiled library.

Objective-C messaging, the CPU emulator and the drawing itself are not part
of this crate; the library's functions take what they need of them as plain
values and hand back what to do.
