# signal-orchestrator-judge

Typed contract between the orchestrator and its judge adapter: topic
assignment (`AssignTopic`) for registering agents and triage (`TriageMessage`)
of messages addressed to the orchestrator. The records and their rules live in
`src/` and are verified with Verus.

- `text`: the non-blank text values (`ContentHash`, `RedactedText`,
  `EscalationReason`, `EscalationDetail`); `new` refuses exactly the texts made
  only of Unicode white space.
- `scope`, `diagnostic`, `assignment`, `triage`, `exchange`: the request, reply,
  verdict and rejection records.
- `vocabulary`: the topic, agent and message types that the records carry
  without reading them; the orchestrator supplies them.

`app/` holds the wire copies of the records (rkyv derives, the signal-frame
exchange frame) instantiated with the orchestrator's vocabulary.
