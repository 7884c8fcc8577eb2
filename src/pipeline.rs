use vstd::prelude::*;
use crate::chunking::{chunks_of, chunks_view, plan_chunks};
use crate::corpus::{comma_joined, join_labels, strings_view, text_or_empty, IssueContext};
use crate::prompts::{
    map_prompt, map_prompt_text, reduce_prompt, reduce_prompt_text, summary_message,
    summary_message_text, unsplit_prompt, unsplit_prompt_text,
};
use crate::tokenizer::{chunk_text, decode_or_empty};

verus! {

/// What the summarizer asks of its caller next.
pub enum Action {
    /// Send this prompt for completion and hand back the reply.
    Ask(String),
    /// Post this message; the issue is done.
    Post(String),
}

/// The summarization of one issue, from its token stream to the message that
/// reports it. A split stream is summarized chunk by chunk ("map"), then the
/// interim summaries are folded into one ("reduce"); a stream that fits the
/// budget goes to one request directly.
pub struct SummaryRun {
    pub title: String,
    pub creator_login: String,
    pub creator_role: String,
    pub labels: String,
    pub html_url: String,
    pub chunks: Vec<Vec<u32>>,
    pub split: bool,
    pub next_chunk: usize,
    pub interim: String,
    pub done: bool,
}

impl SummaryRun {
    pub open spec fn wf(&self) -> bool {
        &&& self.chunks@.len() >= 1
        &&& self.next_chunk <= self.chunks@.len()
        &&& !self.split ==> self.chunks@.len() == 1
    }

    /// Whether the run waits for the interim summary of a chunk.
    pub open spec fn mapping(&self) -> bool {
        self.split && self.next_chunk < self.chunks@.len()
    }

    /// The number of interim summaries asked for over the whole run.
    pub open spec fn map_request_count(&self) -> nat {
        if self.split {
            self.chunks@.len()
        } else {
            0
        }
    }

    /// The prompt whose reply the run waits for.
    pub open spec fn pending_prompt(&self) -> Seq<char> {
        if self.mapping() {
            map_prompt_text(self.title@, chunk_text(self.chunks@[self.next_chunk as int]@))
        } else if self.split {
            reduce_prompt_text(
                self.creator_login@,
                self.creator_role@,
                self.title@,
                self.labels@,
                self.interim@,
            )
        } else {
            unsplit_prompt_text(chunk_text(self.chunks@[0]@))
        }
    }

    fn pending(&self) -> (r: String)
        requires
            self.wf(),
        ensures
            r@ == self.pending_prompt(),
    {
        if self.split && self.next_chunk < self.chunks.len() {
            let text = decode_or_empty(&self.chunks[self.next_chunk]);
            map_prompt(self.title.as_str(), text.as_str())
        } else if self.split {
            reduce_prompt(
                self.creator_login.as_str(),
                self.creator_role.as_str(),
                self.title.as_str(),
                self.labels.as_str(),
                self.interim.as_str(),
            )
        } else {
            let text = decode_or_empty(&self.chunks[0]);
            unsplit_prompt(text.as_str())
        }
    }

    /// Starts summarizing `issue` from its token stream: plans the chunks
    /// under `budget` and asks for the first request. A stream that fits the
    /// budget is one chunk and goes straight to the single summary request;
    /// a longer one asks for the interim summary of its first chunk.
    pub fn start(issue: &IssueContext, stream: &Vec<u32>, budget: usize) -> (r: (
        SummaryRun,
        Action,
    ))
        requires
            budget > 0,
        ensures
            r.0.wf(),
            chunks_view(r.0.chunks@) == chunks_of(stream@, budget as nat),
            r.0.split == (stream@.len() > budget),
            r.0.next_chunk == 0,
            r.0.interim@ == Seq::<char>::empty(),
            !r.0.done,
            r.0.title@ == issue.title@,
            r.0.creator_login@ == issue.creator_login@,
            r.0.creator_role@ == issue.creator_role@,
            r.0.labels@ == comma_joined(strings_view(issue.labels@)),
            r.0.html_url@ == issue.html_url@,
            r.0.map_request_count() == if stream@.len() <= budget {
                0
            } else {
                chunks_of(stream@, budget as nat).len()
            },
            stream@.len() <= budget ==> r.0.pending_prompt() == unsplit_prompt_text(
                chunk_text(stream@),
            ),
            match r.1 {
                Action::Ask(p) => p@ == r.0.pending_prompt(),
                Action::Post(_) => false,
            },
    {
        let chunks = plan_chunks(stream, budget);
        proof {
            assert(chunks_view(chunks@).len() == chunks@.len());
            if stream@.len() <= budget {
                assert(chunks_view(chunks@)[0] == stream@);
            } else {
                assert(chunks_view(chunks@).len() >= 1);
            }
        }
        let run = SummaryRun {
            title: issue.title.clone(),
            creator_login: issue.creator_login.clone(),
            creator_role: issue.creator_role.clone(),
            labels: join_labels(&issue.labels),
            html_url: issue.html_url.clone(),
            chunks,
            split: stream.len() > budget,
            next_chunk: 0,
            interim: String::new(),
            done: false,
        };
        let prompt = run.pending();
        (run, Action::Ask(prompt))
    }

    /// Takes the reply to the pending prompt, `None` where the request failed.
    /// An interim reply is appended to the interim summaries (a failed one adds
    /// nothing) and the next chunk's prompt, or the reduce prompt, follows. The
    /// final reply, or the empty text where it failed, is posted with the
    /// issue's address.
    pub fn reply(&mut self, answer: Option<String>) -> (r: Action)
        requires
            old(self).wf(),
            !old(self).done,
        ensures
            final(self).wf(),
            final(self).title == old(self).title,
            final(self).creator_login == old(self).creator_login,
            final(self).creator_role == old(self).creator_role,
            final(self).labels == old(self).labels,
            final(self).html_url == old(self).html_url,
            final(self).chunks == old(self).chunks,
            final(self).split == old(self).split,
            old(self).mapping() ==> {
                &&& final(self).next_chunk == old(self).next_chunk + 1
                &&& final(self).interim@ == old(self).interim@ + text_or_empty(answer)
                &&& !final(self).done
                &&& match r {
                    Action::Ask(p) => p@ == final(self).pending_prompt(),
                    Action::Post(_) => false,
                }
            },
            !old(self).mapping() ==> {
                &&& final(self).next_chunk == old(self).next_chunk
                &&& final(self).interim == old(self).interim
                &&& final(self).done
                &&& match r {
                    Action::Post(m) => m@ == summary_message_text(
                        text_or_empty(answer),
                        old(self).html_url@,
                    ),
                    Action::Ask(_) => false,
                }
            },
    {
        if self.split && self.next_chunk < self.chunks.len() {
            match answer {
                Some(t) => self.interim.append(t.as_str()),
                None => {
                    assert(self.interim@ + Seq::<char>::empty() =~= self.interim@);
                },
            }
            self.next_chunk = self.next_chunk + 1;
            Action::Ask(self.pending())
        } else {
            self.done = true;
            let summary = match answer {
                Some(t) => t,
                None => String::new(),
            };
            Action::Post(summary_message(summary.as_str(), self.html_url.as_str()))
        }
    }
}

} // verus!
