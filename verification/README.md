# komoswitch

A workspace switcher for the komorebi tiling window manager that sits inside the Windows
taskbar: one small bar per monitor shows the monitor's workspaces, highlights the focused one,
names the special state of the focused window (maximized, monocle) or, for the scrolling
layout, shows where the focused container lies; a click switches workspace.

`src/` is the verified library, written with Verus:

- `geometry` — rectangles, containment, and the conversion of the window manager's monitor
  areas (origin, width, height) into edges.
- `settings` — packed colours, the palette taken from the system's colours, the transparency
  key and the font face.
- `state` — what the bar reads of the window manager's state.
- `application` — the bar: its windows, which monitor each shows, where windows go
  (`prepare`), the layout of what a window draws (`paint`), hit testing and resizing
  (`layout`), the message dispatch (`handlers`) and the checks that the inputs stay within
  the machine's integers (`fit`).
- `msgs`, `komo` — the state-update message and the decisions of the subscription loop.

`app/` is the Windows program around it: the window class and message loop, GDI drawing of
the planned steps, text measurement, and the socket to the window manager.
