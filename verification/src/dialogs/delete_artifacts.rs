//! Confirmation dialog for deleting rrd artifacts from the store.
//!
//! Deletion requests are queued by the context-menu actions; this dialog picks them up once
//! per frame, asks the user, and only a confirmed request actually deletes anything.
use vstd::prelude::*;
use vstd::string::*;

use crate::effects::ArtifactDeletionRequest;
use crate::i18n;
use crate::i18n::{tr, Language};
use crate::text;

verus! {

/// The dialog, with the request that it asks about.
#[derive(Debug)]
pub struct DeleteArtifactsModal {
    pub is_open: bool,
    pub request: Option<ArtifactDeletionRequest>,
}

/// What the user answers.
#[derive(Clone, Copy, Debug, PartialEq, Eq, Structural)]
pub enum DeleteAnswer {
    Delete,
    Cancel,
}

/// What comes of the answer.
#[derive(Debug)]
pub enum DeleteOutcome {
    Nothing,
    /// Carry the request out.
    Delete(ArtifactDeletionRequest),
    /// It cannot be carried out: say why.
    Warn(String),
}

/// What is going to be deleted. `count` is the number of converted copies that are known.
pub open spec fn question(request: ArtifactDeletionRequest, count: u64, lang: Language) -> Seq<char> {
    match request.episode {
        Some(_) => "这会从制品库中删除这一集转换出的 rrd："@,
        None => match lang {
            Language::English => "This deletes ALL converted rrds of this dataset ("@
                + text::decimal(count as nat) + " known) from the artifacts store:"@,
            Language::Chinese => "这会从制品库中删除这个数据集转换出的全部 rrd（已知 "@
                + text::decimal(count as nat) + " 个）："@,
        },
    }
}

/// Why a request cannot be carried out.
pub open spec fn stream_gone(dataset_url: Seq<char>, lang: Language) -> Seq<char> {
    i18n::translated(
        lang,
        "Cannot delete rrd artifacts: the dataset's stream is no longer active\nDataset: "@,
        "无法删除 rrd 制品：这个数据集的流式读取已不再活跃\n数据集："@,
    ) + dataset_url
}

impl DeleteArtifactsModal {
    pub fn new() -> (r: Self)
        ensures
            !r.is_open,
            r.request is None,
    {
        DeleteArtifactsModal { is_open: false, request: None }
    }

    /// Pick up a new request, if there is one: it replaces the one before.
    pub fn pick_up(&mut self, request: Option<ArtifactDeletionRequest>)
        ensures
            request is None ==> *final(self) == *old(self),
            request is Some ==> final(self).is_open && final(self).request == request,
    {
        if request.is_some() {
            self.request = request;
            self.is_open = true;
        }
    }

    /// The question that the dialog asks, if it has one, and the address that it is about.
    pub fn question(&self, count: u64, lang: Language) -> (r: Option<(String, String)>)
        ensures
            (match r {
                Some((words, target)) => Some((words@, target@)),
                None => None,
            }) == (match self.request {
                Some(request) => Some((question(request, count, lang), request.target_url@)),
                None => None,
            }),
    {
        match &self.request {
            None => None,
            Some(request) => {
                let words: String = match request.episode {
                    Some(_) => "这会从制品库中删除这一集转换出的 rrd：".to_owned(),
                    None => {
                        let number: String = text::decimal_text(count);
                        match lang {
                            Language::English => text::cat3(
                                "This deletes ALL converted rrds of this dataset (",
                                number.as_str(),
                                " known) from the artifacts store:",
                            ),
                            Language::Chinese => text::cat3(
                                "这会从制品库中删除这个数据集转换出的全部 rrd（已知 ",
                                number.as_str(),
                                " 个）：",
                            ),
                        }
                    },
                };
                Some((words, request.target_url.clone()))
            },
        }
    }

    /// The user answered: the request is settled. It is carried out if they confirmed it and
    /// the dataset is still being streamed.
    pub fn answer(&mut self, answer: DeleteAnswer, stream_is_active: bool, lang: Language) -> (r:
        DeleteOutcome)
        ensures
            final(self).request is None,
            old(self).request is None ==> r == DeleteOutcome::Nothing && final(self).is_open
                == old(self).is_open,
            old(self).request matches Some(request) ==> !final(self).is_open && match answer {
                DeleteAnswer::Cancel => r == DeleteOutcome::Nothing,
                DeleteAnswer::Delete => if stream_is_active {
                    r == DeleteOutcome::Delete(request)
                } else {
                    r matches DeleteOutcome::Warn(words) && words@ == stream_gone(
                        request.dataset_url@,
                        lang,
                    )
                },
            },
    {
        match self.request.take() {
            None => DeleteOutcome::Nothing,
            Some(request) => {
                self.is_open = false;
                match answer {
                    DeleteAnswer::Cancel => DeleteOutcome::Nothing,
                    DeleteAnswer::Delete => if stream_is_active {
                        DeleteOutcome::Delete(request)
                    } else {
                        DeleteOutcome::Warn(
                            text::cat2(
                                tr(
                                    lang,
                                    "Cannot delete rrd artifacts: the dataset's stream is no longer active\nDataset: ",
                                    "无法删除 rrd 制品：这个数据集的流式读取已不再活跃\n数据集：",
                                ),
                                request.dataset_url.as_str(),
                            ),
                        )
                    },
                }
            },
        }
    }
}

/// The fixed texts of the dialog: its title, what deleting means, and its two buttons.
pub fn dialog_texts(lang: Language) -> (r: (&'static str, &'static str, &'static str, &'static str))
    ensures
        r.0@ == i18n::translated(lang, "Delete rrd artifacts?"@, "删除 rrd 制品？"@),
        r.1@
            == "查看不受影响：受影响的集下次打开时会从源数据重新转换（若开启了上传，还会重新上传）。此操作无法撤销。"@,
        r.2@ == "删除"@,
        r.3@ == "取消"@,
{
    (
        tr(lang, "Delete rrd artifacts?", "删除 rrd 制品？"),
        "查看不受影响：受影响的集下次打开时会从源数据重新转换（若开启了上传，还会重新上传）。此操作无法撤销。",
        "删除",
        "取消",
    )
}

/// Who is about to delete the copies of a whole dataset is told how many are known: questions
/// about different numbers differ.
pub proof fn law_question_tells_the_number(
    request: ArtifactDeletionRequest,
    m: u64,
    n: u64,
    lang: Language,
)
    requires
        request.episode is None,
    ensures
        text::occurs_in(question(request, n, lang), text::decimal(n as nat)),
        question(request, m, lang) == question(request, n, lang) ==> m == n,
{
    let (before, behind) = match lang {
        Language::English => (
            "This deletes ALL converted rrds of this dataset ("@,
            " known) from the artifacts store:"@,
        ),
        Language::Chinese => ("这会从制品库中删除这个数据集转换出的全部 rrd（已知 "@, " 个）："@),
    };
    let a = question(request, m, lang);
    let b = question(request, n, lang);
    let first = text::decimal(m as nat);
    let second = text::decimal(n as nat);
    assert(a == before + first + behind);
    assert(b == before + second + behind);
    text::lemma_occurs_between(before, second, behind, b);
    if a == b {
        assert(first.len() == second.len());
        let lo = before.len() as int;
        let hi = lo + first.len();
        assert(a.subrange(lo, hi) =~= first);
        assert(b.subrange(lo, hi) =~= second);
        text::law_numbers_are_spelled_in_one_way(m as nat, n as nat);
    }
}

} // verus!
