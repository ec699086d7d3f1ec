# synic

A synthetic interrupt controller for virtual processors, verified with Verus.

The controller delivers messages, events and timer expirations to the virtual
processors of a partition, through sixteen interrupt sources each.

- `registers`, `message`: the layouts of the registers and of the messages.
- `access`: what the controller asks of the virtual machine: interrupts, and
  guest pages to lay its own pages over.
- `overlay`: the message page and the event flags page.
- `shared`, `lock`: the state and the event flags page that other processors
  signal events through, and the locks around them.
- `sint`, `timer`: the sources and the timers of a processor.
- `model`: a processor's controller as mathematics; the contracts of
  `processor` are stated over it.
- `processor`, `global`: the controllers of a processor and of a partition.
- `laws`: what holds of the controller as a whole.

`app` runs the controller on guest memory that the guest reads and writes at
the same time.
