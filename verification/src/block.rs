//! What a block says of itself.
use vstd::prelude::*;

use crate::types::InstanceMode;

verus! {

/// The self-description of a block.
#[derive(Debug)]
pub struct BlockInfo {
    pub name: String,
    pub version: String,
    pub interface: String,
    pub summary: String,
    pub instance_mode: InstanceMode,
    pub allowed_modes: Vec<InstanceMode>,
    pub admin_ui: Option<String>,
}

/// What a self-description holds.
pub struct BlockInfoView {
    pub name: Seq<char>,
    pub version: Seq<char>,
    pub interface: Seq<char>,
    pub summary: Seq<char>,
    pub instance_mode: InstanceMode,
    pub allowed_modes: Seq<InstanceMode>,
    pub admin_ui: Option<Seq<char>>,
}

impl View for BlockInfo {
    type V = BlockInfoView;

    open spec fn view(&self) -> BlockInfoView {
        BlockInfoView {
            name: self.name@,
            version: self.version@,
            interface: self.interface@,
            summary: self.summary@,
            instance_mode: self.instance_mode,
            allowed_modes: self.allowed_modes@,
            admin_ui: match self.admin_ui {
                Some(page) => Some(page@),
                None => None,
            },
        }
    }
}

impl BlockInfoView {
    /// What stands in for the self-description of a block that cannot give one.
    pub open spec fn unknown(summary: Seq<char>) -> Self {
        BlockInfoView {
            name: "unknown"@,
            version: "0.0.0"@,
            interface: "error"@,
            summary,
            instance_mode: InstanceMode::PerNode,
            allowed_modes: Seq::empty(),
            admin_ui: None,
        }
    }
}

impl Clone for BlockInfo {
    fn clone(&self) -> (r: Self)
        ensures
            r@ == self@,
    {
        let mut allowed_modes: Vec<InstanceMode> = Vec::new();
        let n: usize = self.allowed_modes.len();
        let mut i: usize = 0;
        while i < n
            invariant
                i <= n,
                n == self.allowed_modes@.len(),
                allowed_modes@ =~= self.allowed_modes@.take(i as int),
            decreases n - i,
        {
            allowed_modes.push(self.allowed_modes[i]);
            i = i + 1;
        }
        assert(allowed_modes@ =~= self.allowed_modes@);
        let admin_ui = match &self.admin_ui {
            Some(page) => Some(page.clone()),
            None => None,
        };
        BlockInfo {
            name: self.name.clone(),
            version: self.version.clone(),
            interface: self.interface.clone(),
            summary: self.summary.clone(),
            instance_mode: self.instance_mode,
            allowed_modes,
            admin_ui,
        }
    }
}

impl BlockInfo {
    /// What stands in for the self-description of a block that cannot give one.
    pub fn unknown(summary: String) -> (r: Self)
        ensures
            r@ == BlockInfoView::unknown(summary@),
    {
        let r = BlockInfo {
            name: "unknown".to_owned(),
            version: "0.0.0".to_owned(),
            interface: "error".to_owned(),
            summary,
            instance_mode: InstanceMode::PerNode,
            allowed_modes: Vec::new(),
            admin_ui: None,
        };
        assert(r@.allowed_modes =~= Seq::<InstanceMode>::empty());
        r
    }
}

} // verus!
