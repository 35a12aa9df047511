//! The row generators of the `income_band` and `reason` tables.
//!
//! A generator draws two numbers from the row's null stream (a threshold in
//! `0..=9999` and a candidate bitmap), reads the table's null settings, and
//! looks the remaining column values up by row number. The draws, the
//! table settings and the looked-up values come from the random streams
//! and distributions of the generator library; what the generator decides
//! with them is here.
use vstd::prelude::*;

use crate::rows::{IncomeBandRow, ReasonRow};

verus! {

/// A row's null bitmap: when the threshold draw falls below the table's
/// null basis points, the bitmap draw with the table's never-NULL columns
/// cleared; otherwise no column is NULL.
pub open spec fn null_bit_map_of(
    threshold: i32,
    bit_map: i64,
    null_basis_points: i32,
    not_null_bit_map: i64,
) -> i64 {
    if threshold < null_basis_points {
        bit_map & !not_null_bit_map
    } else {
        0
    }
}

/// A row's null bitmap from its two null draws and the table's null
/// settings.
pub fn create_null_bit_map(
    threshold: i32,
    bit_map: i64,
    null_basis_points: i32,
    not_null_bit_map: i64,
) -> (r: i64)
    ensures
        r == null_bit_map_of(threshold, bit_map, null_basis_points, not_null_bit_map),
{
    if threshold < null_basis_points {
        bit_map & !not_null_bit_map
    } else {
        0
    }
}

/// Makes `income_band` rows.
#[derive(Debug, Clone, Copy)]
pub struct IncomeBandRowGenerator {}

impl Default for IncomeBandRowGenerator {
    /// The same as [`IncomeBandRowGenerator::new`].
    fn default() -> (r: Self)
        ensures
            r == (IncomeBandRowGenerator {  }),
    {
        IncomeBandRowGenerator::new()
    }
}

impl IncomeBandRowGenerator {
    /// A generator for the `income_band` table.
    pub fn new() -> (r: Self)
        ensures
            r == (IncomeBandRowGenerator {  }),
    {
        IncomeBandRowGenerator {  }
    }

    /// The `income_band` row for source row `row_number`: its band key is
    /// the row number (as an `i32`), its bounds are those the demographics
    /// distribution holds at index `row_number - 1`, and its null bitmap
    /// comes from the row's null draws and the table's null settings.
    pub fn generate_income_band_row(
        &self,
        row_number: i64,
        threshold: i32,
        bit_map: i64,
        null_basis_points: i32,
        not_null_bit_map: i64,
        lower_bound: i32,
        upper_bound: i32,
    ) -> (r: IncomeBandRow)
        ensures
            r.spec_null_bit_map() == null_bit_map_of(
                threshold,
                bit_map,
                null_basis_points,
                not_null_bit_map,
            ),
            r.spec_income_band_sk() == row_number as i32,
            r.spec_lower_bound() == lower_bound,
            r.spec_upper_bound() == upper_bound,
    {
        let null_bit_map = create_null_bit_map(threshold, bit_map, null_basis_points, not_null_bit_map);
        #[verifier::truncate]
        let sk = row_number as i32;
        IncomeBandRow::new(null_bit_map, sk, lower_bound, upper_bound)
    }
}

/// Makes `reason` rows.
#[derive(Debug, Clone, Copy)]
pub struct ReasonRowGenerator {}

impl Default for ReasonRowGenerator {
    /// The same as [`ReasonRowGenerator::new`].
    fn default() -> (r: Self)
        ensures
            r == (ReasonRowGenerator {  }),
    {
        ReasonRowGenerator::new()
    }
}

impl ReasonRowGenerator {
    /// A generator for the `reason` table.
    pub fn new() -> (r: Self)
        ensures
            r == (ReasonRowGenerator {  }),
    {
        ReasonRowGenerator {  }
    }

    /// The `reason` row for source row `row_number`: its key is the row
    /// number, its id the row number's business key, its description the
    /// return reason at index `row_number - 1`, and its null bitmap comes
    /// from the row's null draws (the bitmap drawn as an `i32`) and the
    /// table's null settings.
    pub fn generate_reason_row(
        &self,
        row_number: i64,
        threshold: i32,
        bit_map: i32,
        null_basis_points: i32,
        not_null_bit_map: i64,
        business_key: String,
        reason_desc: String,
    ) -> (r: ReasonRow)
        ensures
            r.spec_null_bit_map() == null_bit_map_of(
                threshold,
                bit_map as i64,
                null_basis_points,
                not_null_bit_map,
            ),
            r.spec_reason_sk() == row_number,
            r.spec_reason_id() == business_key@,
            r.spec_reason_desc() == reason_desc@,
    {
        let null_bit_map = create_null_bit_map(
            threshold,
            bit_map as i64,
            null_basis_points,
            not_null_bit_map,
        );
        ReasonRow::new(null_bit_map, row_number, business_key, reason_desc)
    }
}

} // verus!
