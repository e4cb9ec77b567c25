# cgns-rust

A way to read and write CGNS files from Rust, with the library's logic
verified by Verus.

* `src/` is the verified library: the node types of a CGNS file (file, base,
  zone, section, boundary condition, flow solution and field, grid
  coordinates), the decoding and encoding of node names as C strings, the
  slicing of zone sizes, the checks on element buffers, the rebuilding of the
  offsets of connectivities written in the CGNS 3.3 layout, the walk over the
  children of a node, and a lock flag (`LibraryLock`) that hands out one
  library handle at a time; the program keeps a single such lock for the
  whole process.
* `app/` is the program around it: the bindings to the CGNS mid-level library
  (`libcgns`), the calls that read and write nodes, and the error types with
  their messages.
