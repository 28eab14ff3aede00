//! The banner for mobile operating systems.
use vstd::prelude::*;

use crate::i18n;
use crate::i18n::{tr, Language};
use crate::platform::OperatingSystem;

verus! {

/// A warning, and where it links to.
#[derive(Clone, Copy, Debug)]
pub struct MobileWarning {
    pub text: &'static str,
    pub url: &'static str,
}

/// The UI experience is not yet optimized for mobile: a banner says so there, with a link to
/// the tracking issue.
pub fn mobile_warning(os: OperatingSystem, lang: Language) -> (r: Option<MobileWarning>)
    ensures
        r is Some <==> os == OperatingSystem::Ios || os == OperatingSystem::Android,
        r matches Some(warning) ==> {
            &&& warning.text@ == i18n::translated(
                lang,
                "Mobile OSes are not yet supported. Click for details."@,
                "暂不支持移动操作系统。点击查看详情。"@,
            )
            &&& warning.url@ == "https://github.com/rerun-io/rerun/issues/1672"@
        },
{
    if os == OperatingSystem::Ios || os == OperatingSystem::Android {
        Some(
            MobileWarning {
                text: tr(
                    lang,
                    "Mobile OSes are not yet supported. Click for details.",
                    "暂不支持移动操作系统。点击查看详情。",
                ),
                url: "https://github.com/rerun-io/rerun/issues/1672",
            },
        )
    } else {
        None
    }
}

} // verus!
