//! Laying a set of flat rows out as a spreadsheet.
//!
//! The sheet layout — header row, one row of cells per record, fixed
//! column order — is computed and checked here; writing the cells into
//! a file is the caller's, which reports back the resulting size.

use vstd::prelude::*;

use crate::flattener::FlatRow;
use crate::flattener::spec_headers;
use crate::flattener::spec_row_values;
use crate::logger::Logger;

verus! {

/// Why an export failed.
#[derive(Debug)]
pub enum SinkError {
    /// There were no rows to export.
    EmptyDataset,
    /// The file could not be written; the writer's words.
    WriteError(String),
}

/// A sheet ready to be written: the header row, then one row of cells
/// per record, all sharing the fixed column order.
pub struct SheetPlan {
    pub headers: Vec<String>,
    pub rows: Vec<Vec<String>>,
    pub record_count: usize,
}

/// What a finished export reports.
pub struct ExportResult {
    pub filename: String,
    pub record_count: usize,
    pub file_size: u64,
}

/// Lays flat rows out as a spreadsheet plan.
pub struct ExcelExporter {
    /// The run's metrics and message log.
    pub logger: Logger,
}

impl ExcelExporter {
    /// An exporter that reports through `logger`.
    pub fn new(logger: Logger) -> (r: Self)
        ensures
            r.logger == logger,
    {
        ExcelExporter { logger }
    }

    /// Plans the sheet for `data`: succeeds exactly on a non-empty
    /// dataset and fails exactly on an empty one; on success the header
    /// row carries the fixed column names and each record contributes
    /// one row of its field values, in order. The reported record count
    /// is exactly the number of rows given.
    pub fn prepare_export(&self, data: &Vec<FlatRow>) -> (r: Result<SheetPlan, SinkError>)
        ensures
            r is Ok <==> data@.len() > 0,
            data@.len() == 0 <==> r == Err::<SheetPlan, SinkError>(SinkError::EmptyDataset),
            r matches Ok(plan) ==> {
                &&& plan.record_count == data@.len()
                &&& plan.headers.deep_view() == spec_headers()
                &&& plan.rows@.len() == data@.len()
                &&& forall|i: int|
                    0 <= i < data@.len() ==> (#[trigger] plan.rows@[i]).deep_view()
                        == spec_row_values(data@[i])
            },
    {
        if data.len() == 0 {
            return Err(SinkError::EmptyDataset);
        }
        let headers = FlatRow::headers();
        let mut rows: Vec<Vec<String>> = Vec::new();
        let mut i: usize = 0;
        while i < data.len()
            invariant
                0 <= i <= data@.len(),
                rows@.len() == i,
                forall|j: int|
                    0 <= j < i ==> (#[trigger] rows@[j]).deep_view() == spec_row_values(data@[j]),
            decreases data@.len() - i,
        {
            rows.push(data[i].values());
            i = i + 1;
        }
        Ok(SheetPlan { headers, rows, record_count: data.len() })
    }
}

} // verus!
