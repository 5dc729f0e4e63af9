# feedback_modal

The rules behind a feedback dialog, verified with Verus: when a report may be submitted, what the
dialog shows, what leaves the machine and in which order, and when the dialog may close.

- `src/modal.rs`: the dialog, `FeedbackModal`.
- `src/state.rs`, `src/email.rs`: whether its contents are valid.
- `src/submission.rs`: the course of one submission, as steps from event to action.
- `src/transport.rs`: the request and what its reply means.
- `src/store.rs`: the remembered email address.
- `src/prompt.rs`, `src/text.rs`: questions to the user, trimming and decimals.
- `src/laws.rs`: what holds of all this as a whole.
- `app/`: the dialog on the screen, which performs the library's actions.

What is believed without proof stands in the functions marked `external_body`: `str::trim`, one
regular expression match, and three questions to the `http` crate.
