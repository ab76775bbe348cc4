# lite_sync

Lightweight synchronization primitives — a single-waiter notifier, one-shot
channels (`oneshot::lite` for a one-byte completion state, `oneshot::generic`
for any value), a bounded SPSC channel (`spsc`) and request-response channels
(`request_response::one_to_one`, `request_response::many_to_one`) — verified
with Verus.

## Layout

- `src/` — the verified library. Each primitive is a state machine — its
  channel state (`SingleWaiterNotify`, `oneshot::common::Inner`,
  `oneshot::lite::Inner`, `spsc::Inner`, `ExchangeCore`, `QueueCore`) — whose
  operations have exact contracts over a model (`NotifyModel`, `Phase`, the
  state code, the message sequence, `ExchangeModel`, `QueueModel`). The sides
  of a primitive (sender and receiver, side A and side B, a wait) are values
  whose operations take the state as an argument, so every call a side makes
  is specified in terms of the state it acts on. The laws of the primitives
  (a notification sent before a wait completes it; messages come out in the
  order they went in; a request reaches the responder and its reply reaches
  the requester; a value is taken exactly once; ...) are proof functions over
  the same models. Every waiting operation is a `poll_*` step that registers a
  clone of the caller's waker and says whether it is done. An operation that
  wakes a waiting task moves that task's stored waker to the wake-ups the
  state owes (`wakeups`, stated exactly in each contract); the owner of the
  state hands them out with `take_wakeups` and wakes them once it has let go
  of the state.
- `app/` — the thread-shared, async layer: each handle keeps the state in an
  `Arc<Mutex<..>>` and locks it for every operation of its side, and on
  unlocking wakes the wake-ups the operation owes; `Future`
  impls call the `poll_*` steps, `Drop` impls call `disconnect`, and the
  blocking receive parks the thread between polls.
- `tests/` — tests of the library, driving the sides and the `poll_*` steps by
  hand with counting wakers.
