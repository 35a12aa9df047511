# tpcgen

The decision and formatting core of a TPC-H / TPC-DS benchmark data
generator, written in Verus and proved against its contracts.

`src/` (verified):

- `plan` — the Parquet row group layout of a TPC-DS table or part: contiguous
  source row ranges covering exactly the requested rows, capped at Parquet's
  32767 row groups.
- `schedule` — the order in which planned Parquet work runs (largest first)
  and the per-table progress totals summed across parts.
- `progress` — which progress bars a requested table registers (a sales
  table also its returns table's), each named after its table and sized by
  the full table; sharing a bar among the parts of a table, every increment
  reaching it and the bar completing only when every part has completed.
- `row_iter`, `batches`, `tables` — walking a table's source rows (or a
  sub-range of them) and cutting the rows a row generator makes for them into
  batches; the caller runs the generator on the rows the walk asks for, as
  many calls per source row as the generator needs (a paired fact-table
  generator's rows of its other table are dropped). Laws: the walk never
  leaves its range, loses or reorders no row, and when it is over has
  handed out exactly its table's rows of every call the generator made for
  its range, in order; the batch size only moves batch boundaries; separate
  ranges concatenate to the whole.
- `columns` — the record batch columns of the TPC-DS tables: from a row's
  values and null bitmap, each value NULL where its column's null bit is
  set (a key also where it is negative), decimals as unscaled numbers, dates
  as `Date32`, flags as `Y`/`N`, zip codes zero-padded.
- `generators` — the `income_band` and `reason` row generators' decisions:
  the null bitmap rule and the assembly of a row from its draws and looked-up
  values.
- `csv`, `rows` — TPC-DS CSV header lines (names quoted when they contain the
  delimiter), CSV lines, and the `income_band` / `reason` rows with their DAT
  lines.
- `conversions` — decimal, date and null-bitmap conversions used when filling
  Arrow columns.
- `column_types`, `parquet_options`, `args`, `tpcds_cli`, `tpcds_table`,
  `tpch`, `text` — table catalogues, option parsing (`COLUMN=ENCODING`,
  delimiters, `--part`/`--parts`, row group sizes, format versions, column
  types) and the `--column-encoding` checks.

`app/` (ordinary Rust, not verified): Arrow arrays and types and Parquet
writer settings built from the library's values, and the loop that runs a row
generator for a walk.

`tests/`: tests of the library through its public API.
