# seal_extract

The verified core of an archive extraction module. Archives are decoded
with the `archive` crate; this library decides what is written where, in
which order, and what is refused, and proves it with Verus.

- `src/path_safety.rs`: which archive paths stay inside the destination.
- `src/format.rs`, `src/entry.rs`, `src/options.rs`: the data model.
- `src/plan.rs`: the plan of writing entries under a directory.
- `src/extract.rs`: decoding (`contents`) and the plans for writing decoded
  entries (`write_to_disk_plan`) or extracting straight to disk
  (`stream_to_disk_plan`). Extracting "straight to disk" decodes the whole
  archive into memory first, then writes it; the decoder refuses archives
  with traversing paths whatever the options allow, and records no
  permission bits or modification times. A refused entry stops writing
  there: the plan carries what is written before it (the entries before the
  refused one), then the error.
- `src/error.rs`, `src/message.rs`: errors and their messages.
- `src/mtime.rs`: the steps of setting a modification time.
- `src/laws.rs`: properties of the plans, proved over their models.
- `src/order.rs`: the file-system effects of a plan, and the law that
  symbolic links act as if they came after every other entry.
- `app/`: runs the plans against the file system.
