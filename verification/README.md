# robot_rover

Scenario plans, acceptance rules and the idle brain of the Phoxal sandbox rover,
as a verified library.

- `src/port.rs`: typed port signatures of the rover's Motion and Safety services.
- `src/payload.rs`: the requests steps carry (motion intents in milli-units,
  arm and disarm requests, raw bytes).
- `src/plan.rs`: scenario plans as plain values, the library's rule for a
  well-formed one, and the `s` + eight-digit step label convention.
- `src/run.rs`: the facts of a finished run (including its last Motion and Safety
  status) and the acceptance rules applied to them.
- `src/scenarios/`: ForwardTurnStop, ExpiryStop, ForwardTurnStop2 and
  IntentionallyFailing: each plan with its exact contents and the laws it keeps,
  and each verdict.
- `src/brain.rs`: the brain, which keeps no state and selects no intent.
- `app/`: the program: runs the brain under the Phoxal runtime, encodes the
  Motion messages with prost, and hands plans to and reads runs from the
  scenario case host.
