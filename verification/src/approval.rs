//! Whether a tool call may run: the capability switches first, then the approval mode.

use vstd::prelude::*;

use crate::domain::ApprovalMode;
use crate::records::ToolRiskLevel;
use crate::registry::ToolDefinition;
use crate::text::{ascii_lower, concat3, owned, str_eq, to_ascii_lowercase, trim_str, trimmed};

verus! {

/// The outcome of an approval.
#[derive(Debug)]
pub struct ApprovalDecision {
    /// Whether the call may run.
    pub approved: bool,
    /// Why.
    pub reason: String,
}

/// Which kinds of tools are switched on.
#[derive(Debug, Clone, Copy)]
pub struct ApprovalCapabilities {
    /// Network tools.
    pub allow_network: bool,
    /// Shell tools.
    pub allow_shell: bool,
    /// File-writing tools.
    pub allow_file_write: bool,
    /// Sub-agent tools.
    pub allow_plugin_tool: bool,
}

impl ApprovalCapabilities {
    /// The given switches.
    pub fn new(
        allow_network: bool,
        allow_shell: bool,
        allow_file_write: bool,
        allow_plugin_tool: bool,
    ) -> (res: ApprovalCapabilities)
        ensures
            res.allow_network == allow_network,
            res.allow_shell == allow_shell,
            res.allow_file_write == allow_file_write,
            res.allow_plugin_tool == allow_plugin_tool,
    {
        ApprovalCapabilities { allow_network, allow_shell, allow_file_write, allow_plugin_tool }
    }
}

/// Decides tool calls under a mode and a set of switches.
pub struct ApprovalManager {
    mode: ApprovalMode,
    capabilities: ApprovalCapabilities,
}

/// Why a switched-off capability blocks a tool of risk `risk` named `name`, if it does.
pub open spec fn blocked_reason(
    caps: ApprovalCapabilities,
    risk: ToolRiskLevel,
    name: Seq<char>,
) -> Option<Seq<char>> {
    match risk {
        ToolRiskLevel::Network => if !caps.allow_network {
            Some("当前配置已关闭网络能力，工具 "@ + name + " 暂不可用。"@)
        } else {
            None
        },
        ToolRiskLevel::Execute => if !caps.allow_shell {
            Some("当前配置已关闭 Shell 执行能力，工具 "@ + name + " 暂不可用。"@)
        } else {
            None
        },
        ToolRiskLevel::Write => if !caps.allow_file_write {
            Some("当前配置已关闭文件写入能力，工具 "@ + name + " 暂不可用。"@)
        } else {
            None
        },
        ToolRiskLevel::Agent => if !caps.allow_plugin_tool {
            Some("当前配置已关闭扩展代理能力，工具 "@ + name + " 暂不可用。"@)
        } else {
            None
        },
        ToolRiskLevel::ReadOnly => None,
    }
}

/// The decision for a tool, as (approved, reason); `None` when the user must be asked.
pub open spec fn approval_outcome(
    mode: ApprovalMode,
    caps: ApprovalCapabilities,
    risk: ToolRiskLevel,
    name: Seq<char>,
) -> Option<(bool, Seq<char>)> {
    match blocked_reason(caps, risk, name) {
        Some(reason) => Some((false, reason)),
        None => match mode {
            ApprovalMode::FullAccess => Some((true, "当前为 FullAccess 模式，已自动放行。"@)),
            ApprovalMode::AutoApproveSafe => if risk == ToolRiskLevel::ReadOnly {
                Some((true, "当前为 AutoApproveSafe 模式，低风险只读工具已自动放行。"@))
            } else {
                Some(
                    (
                        false,
                        "当前为 AutoApproveSafe 模式，工具 "@ + name + " 属于高风险操作，已阻止执行。"@,
                    ),
                )
            },
            ApprovalMode::AskUser => None,
        },
    }
}

/// Whether a reply to an approval prompt allows the call: `y` or `yes`, ignoring case and
/// surrounding whitespace.
pub open spec fn reply_allows(reply: Seq<char>) -> bool {
    let r = ascii_lower(trimmed(reply));
    r == "y"@ || r == "yes"@
}

/// The reason given for a user's answer.
pub open spec fn reply_reason(approved: bool) -> Seq<char> {
    if approved {
        "用户已明确允许执行。"@
    } else {
        "用户拒绝执行该工具。"@
    }
}

impl ApprovalManager {
    /// A manager with the given mode and switches.
    pub fn new(mode: ApprovalMode, capabilities: ApprovalCapabilities) -> (res: ApprovalManager)
        ensures
            res.mode_spec() == mode,
            res.capabilities_spec() == capabilities,
    {
        ApprovalManager { mode, capabilities }
    }

    /// The approval mode.
    pub closed spec fn mode_spec(&self) -> ApprovalMode {
        self.mode
    }

    /// The capability switches.
    pub closed spec fn capabilities_spec(&self) -> ApprovalCapabilities {
        self.capabilities
    }

    /// The approval mode.
    pub fn mode(&self) -> (res: ApprovalMode)
        ensures
            res == self.mode_spec(),
    {
        self.mode
    }

    /// Why a switched-off capability blocks `definition`, if it does.
    pub fn blocked_by_capability(&self, definition: &ToolDefinition) -> (res: Option<String>)
        ensures
            match res {
                Some(r) => blocked_reason(
                    self.capabilities_spec(),
                    definition.risk_level,
                    definition.name@,
                ) == Some(r@),
                None => blocked_reason(
                    self.capabilities_spec(),
                    definition.risk_level,
                    definition.name@,
                ) is None,
            },
    {
        let name = definition.name.as_str();
        match definition.risk_level {
            ToolRiskLevel::Network => if !self.capabilities.allow_network {
                Some(concat3("当前配置已关闭网络能力，工具 ", name, " 暂不可用。"))
            } else {
                None
            },
            ToolRiskLevel::Execute => if !self.capabilities.allow_shell {
                Some(concat3("当前配置已关闭 Shell 执行能力，工具 ", name, " 暂不可用。"))
            } else {
                None
            },
            ToolRiskLevel::Write => if !self.capabilities.allow_file_write {
                Some(concat3("当前配置已关闭文件写入能力，工具 ", name, " 暂不可用。"))
            } else {
                None
            },
            ToolRiskLevel::Agent => if !self.capabilities.allow_plugin_tool {
                Some(concat3("当前配置已关闭扩展代理能力，工具 ", name, " 暂不可用。"))
            } else {
                None
            },
            ToolRiskLevel::ReadOnly => None,
        }
    }

    /// The decision on running `definition`: blocked by a switched-off capability, else
    /// decided by the mode. `None` means the mode asks the user (see `decide_user_reply`).
    pub fn approve(&self, definition: &ToolDefinition) -> (res: Option<ApprovalDecision>)
        ensures
            match approval_outcome(
                self.mode_spec(),
                self.capabilities_spec(),
                definition.risk_level,
                definition.name@,
            ) {
                Some((ok, reason)) => res matches Some(d) && d.approved == ok && d.reason@
                    == reason,
                None => res is None,
            },
    {
        if let Some(reason) = self.blocked_by_capability(definition) {
            return Some(ApprovalDecision { approved: false, reason });
        }
        match self.mode {
            ApprovalMode::FullAccess => Some(
                ApprovalDecision {
                    approved: true,
                    reason: owned("当前为 FullAccess 模式，已自动放行。"),
                },
            ),
            ApprovalMode::AutoApproveSafe => {
                if definition.risk_level == ToolRiskLevel::ReadOnly {
                    Some(
                        ApprovalDecision {
                            approved: true,
                            reason: owned("当前为 AutoApproveSafe 模式，低风险只读工具已自动放行。"),
                        },
                    )
                } else {
                    Some(
                        ApprovalDecision {
                            approved: false,
                            reason: concat3(
                                "当前为 AutoApproveSafe 模式，工具 ",
                                definition.name.as_str(),
                                " 属于高风险操作，已阻止执行。",
                            ),
                        },
                    )
                }
            },
            ApprovalMode::AskUser => None,
        }
    }
}

/// The decision for a user's reply to an approval prompt.
pub fn decide_user_reply(reply: &str) -> (res: ApprovalDecision)
    ensures
        res.approved == reply_allows(reply@),
        res.reason@ == reply_reason(res.approved),
{
    let t = trim_str(reply);
    let lowered = to_ascii_lowercase(t.as_str());
    let approved = str_eq(lowered.as_str(), "y") || str_eq(lowered.as_str(), "yes");
    let reason = if approved {
        owned("用户已明确允许执行。")
    } else {
        owned("用户拒绝执行该工具。")
    };
    ApprovalDecision { approved, reason }
}

} // verus!
