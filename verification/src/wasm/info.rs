//! The self-description of a block, which is kept once it was read.
use vstd::prelude::*;

use crate::block::{BlockInfo, BlockInfoView};
use crate::text::join;
use crate::wasm::format::{block_info_from_wasm, WasmBlockInfo};

verus! {

/// How the self-description of a block is come by: it is known, or the block has
/// to be asked.
pub enum InfoStep {
    Known(BlockInfo),
    Ask,
}

/// What such a step holds.
pub enum InfoStepView {
    Known(BlockInfoView),
    Ask,
}

impl View for InfoStep {
    type V = InfoStepView;

    open spec fn view(&self) -> InfoStepView {
        match *self {
            InfoStep::Known(info) => InfoStepView::Known(info@),
            InfoStep::Ask => InfoStepView::Ask,
        }
    }
}

/// The step that comes of what is kept.
pub open spec fn info_begun(kept: Option<BlockInfoView>) -> InfoStepView {
    match kept {
        Some(info) => InfoStepView::Known(info),
        None => InfoStepView::Ask,
    }
}

/// The self-description that comes of reading its bytes.
pub open spec fn info_meaning(read: Result<WasmBlockInfo, String>) -> BlockInfoView {
    match read {
        Ok(wbi) => wbi.meaning(),
        Err(text) => BlockInfoView::unknown("parsing info: "@ + text@),
    }
}

/// What is kept after the bytes were read. Bytes that could not be read change
/// nothing.
pub open spec fn kept_after(
    kept: Option<BlockInfoView>,
    read: Result<WasmBlockInfo, String>,
) -> Option<BlockInfoView> {
    match read {
        Ok(wbi) => Some(wbi.meaning()),
        Err(_) => kept,
    }
}

/// The self-description that is kept, if one is.
#[derive(Debug)]
pub struct InfoCache {
    kept: Option<BlockInfo>,
}

impl View for InfoCache {
    type V = Option<BlockInfoView>;

    closed spec fn view(&self) -> Option<BlockInfoView> {
        match self.kept {
            Some(info) => Some(info@),
            None => None,
        }
    }
}

impl InfoCache {
    /// Nothing is kept yet.
    pub fn new() -> (r: Self)
        ensures
            r@ is None,
    {
        InfoCache { kept: None }
    }

    /// The self-description that is kept, or that the block has to be asked. No
    /// block is at hand here, so none is run.
    pub fn begin(&self) -> (r: InfoStep)
        ensures
            r@ == info_begun(self@),
    {
        match &self.kept {
            Some(info) => InfoStep::Known(info.clone()),
            None => InfoStep::Ask,
        }
    }

    /// The self-description once its bytes were read. It is kept, unless they
    /// could not be read.
    pub fn record(&mut self, read: Result<WasmBlockInfo, String>) -> (r: BlockInfo)
        ensures
            r@ == info_meaning(read),
            final(self)@ == kept_after(old(self)@, read),
    {
        match read {
            Ok(wbi) => {
                let info = block_info_from_wasm(wbi);
                self.kept = Some(info.clone());
                info
            },
            Err(text) => BlockInfo::unknown(join("parsing info: ", text.as_str())),
        }
    }
}

/// What comes of asking a block: a self-description that stands in, or one that
/// was read from bytes.
pub ghost enum Asked {
    Failed(BlockInfoView),
    Read(Result<WasmBlockInfo, String>),
}

/// What a call for the self-description gives, and what is kept after it. The
/// block is asked where the step says so, and would answer as given.
pub open spec fn info_call(kept: Option<BlockInfoView>, asked: Asked) -> (
    BlockInfoView,
    Option<BlockInfoView>,
) {
    match info_begun(kept) {
        InfoStepView::Known(info) => (info, kept),
        InfoStepView::Ask => match asked {
            Asked::Failed(info) => (info, kept),
            Asked::Read(read) => (info_meaning(read), kept_after(kept, read)),
        },
    }
}

/// What is kept after a row of calls.
pub open spec fn info_calls(kept: Option<BlockInfoView>, row: Seq<Asked>) -> Option<BlockInfoView>
    decreases row.len(),
{
    if row.len() == 0 {
        kept
    } else {
        info_call(info_calls(kept, row.drop_last()), row.last()).1
    }
}

/// What is kept stays through any row of calls.
proof fn kept_info_stays(info: BlockInfoView, row: Seq<Asked>)
    ensures
        info_calls(Some(info), row) == Some(info),
    decreases row.len(),
{
    if row.len() > 0 {
        kept_info_stays(info, row.drop_last());
    }
}

/// Once a call has read the self-description of a block, every later call gives
/// the same one, and none of them asks the block, however it would answer.
pub proof fn info_is_read_once(
    kept: Option<BlockInfoView>,
    wbi: WasmBlockInfo,
    between: Seq<Asked>,
    asked: Asked,
)
    requires
        info_begun(kept) is Ask,
    ensures
        info_call(kept, Asked::Read(Ok(wbi))).0 == wbi.meaning(),
        info_begun(info_calls(info_call(kept, Asked::Read(Ok(wbi))).1, between))
            == InfoStepView::Known(wbi.meaning()),
        info_call(info_calls(info_call(kept, Asked::Read(Ok(wbi))).1, between), asked).0
            == wbi.meaning(),
{
    kept_info_stays(wbi.meaning(), between);
}

/// A self-description that only stands in is not kept: as long as none was read,
/// the block is asked.
pub proof fn stand_ins_are_not_kept(row: Seq<Asked>)
    requires
        forall|i: int|
            0 <= i < row.len() ==> (#[trigger] row[i] is Failed || row[i]->Read_0 is Err),
    ensures
        info_begun(info_calls(None, row)) is Ask,
    decreases row.len(),
{
    if row.len() > 0 {
        let front = row.drop_last();
        assert forall|i: int| 0 <= i < front.len() implies (#[trigger] front[i] is Failed
            || front[i]->Read_0 is Err) by {
            assert(front[i] == row[i]);
        }
        stand_ins_are_not_kept(front);
        assert(row.last() == row[row.len() - 1]);
    }
}

} // verus!
