# procsim

A simulator of a small five-stage pipelined microprocessor (fetch, decode,
execute, memory, write back) with 65536 words of ROM and RAM and 32
registers, verified with Verus.

- `src/` is the verified library: the instruction word layout (`isa`), the
  arithmetic unit (`alu`), the pipeline stages (`stages`), the machine and its
  clock (`processor`), the ROM image reader (`scan`, `rom_reader`), the text
  renderings of the state (`text`, `render`), properties that span
  operations (`laws`) and the faithfulness of the renderings (`render_laws`).
- `tests/` runs the library on concrete programs and images.
- `app/` is the desktop front end: it reads ROM files, serializes the state to
  JSON and serves the GUI commands.
