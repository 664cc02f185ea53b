//! Tables and table cells of accessible objects.
use vstd::prelude::*;

use crate::jab::context::AccessibleContext;
use crate::jab::packages::{ContextInfo, TableCellInfo, TableInfo};

verus! {

/// A table of a Java VM: the bridge's table record, with its caption and summary objects.
pub struct AccessibleTable {
    pub vm_id: i32,
    pub table: TableInfo,
    pub caption: AccessibleContext,
    pub summary: AccessibleContext,
}

impl AccessibleTable {
    /// The table of VM `vm_id` described by `table`; its caption and summary are the objects
    /// the record names, with the information the bridge gave for them.
    pub fn new(
        vm_id: i32,
        table: TableInfo,
        caption_info: Option<ContextInfo>,
        summary_info: Option<ContextInfo>,
    ) -> (t: Self)
        ensures
            t.vm_id == vm_id,
            t.table == table,
            t.caption == (AccessibleContext { vm_id, object: table.caption, info: caption_info }),
            t.summary == (AccessibleContext { vm_id, object: table.summary, info: summary_info }),
    {
        let caption = AccessibleContext::new(vm_id, table.caption, caption_info);
        let summary = AccessibleContext::new(vm_id, table.summary, summary_info);
        AccessibleTable { vm_id, table, caption, summary }
    }

    /// The table's caption object.
    pub fn get_caption(&self) -> (caption: &AccessibleContext)
        ensures
            *caption == self.caption,
    {
        &self.caption
    }

    /// The table's summary object.
    pub fn get_summary(&self) -> (summary: &AccessibleContext)
        ensures
            *summary == self.summary,
    {
        &self.summary
    }

    /// Selected row or column indices, from the bridge's answer; none when it gave no answer.
    pub fn selection_indices(answer: Option<Vec<i32>>) -> (indices: Vec<i32>)
        ensures
            indices@ == match answer {
                Some(v) => v@,
                None => Seq::<i32>::empty(),
            },
    {
        match answer {
            Some(v) => v,
            None => Vec::new(),
        }
    }
}

/// A cell of a table: the bridge's cell record.
pub struct AccessibleTableCell {
    pub vm_id: i32,
    pub info: TableCellInfo,
}

impl AccessibleTableCell {
    /// The cell of VM `vm_id` described by `info`.
    pub fn new(vm_id: i32, info: TableCellInfo) -> (cell: Self)
        ensures
            cell.vm_id == vm_id,
            cell.info == info,
    {
        AccessibleTableCell { vm_id, info }
    }

    /// The cell's index in the table.
    pub fn get_index(&self) -> (index: i32)
        ensures
            index == self.info.index,
    {
        self.info.index
    }

    /// The cell's column.
    pub fn get_column(&self) -> (column: i32)
        ensures
            column == self.info.column,
    {
        self.info.column
    }

    /// The cell's row.
    pub fn get_row(&self) -> (row: i32)
        ensures
            row == self.info.row,
    {
        self.info.row
    }

    /// The number of rows the cell spans.
    pub fn get_row_extent(&self) -> (extent: i32)
        ensures
            extent == self.info.row_extent,
    {
        self.info.row_extent
    }

    /// The number of columns the cell spans.
    pub fn get_column_extent(&self) -> (extent: i32)
        ensures
            extent == self.info.column_extent,
    {
        self.info.column_extent
    }

    /// Whether the cell is selected.
    pub fn is_selected(&self) -> (selected: bool)
        ensures
            selected == (self.info.is_selected != 0),
    {
        self.info.is_selected != 0
    }
}

} // verus!
