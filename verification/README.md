# calendar_settings

The rules of a page on which calendar sources are managed: CalDAV servers, ICS addresses and ICS
files, with their sign-in, their calendars, their colors, and the sync settings.

`src/` is a library that is verified with Verus. It does no input or output. The page is a machine:
`page::Page` is its state, `Page::update` takes an event and says what the caller has to do, and the
caller hands the results back as further events. The keyring, sign-in and discovery protocols are
machines of the same kind.

| Module | What it holds |
| --- | --- |
| `text` | trimming, splitting, joining, numbers |
| `config` | sources, calendars and settings, as they are stored |
| `sources` | how lists of sources and calendars change |
| `page` | the state of the page and its form |
| `message`, `task` | events, and the work that they lead to |
| `update` | what each event does |
| `secrets` | storing, loading and deleting secrets in the keyring |
| `auth` | OIDC sign-in and its callback server |
| `discovery` | authentication and discovery of calendars |
| `labels`, `widgets`, `sections`, `form` | what the page shows |
| `color`, `cache` | colors as they are written; where cached events lie |
| `laws` | what holds of the page over any number of events |

`app/` is ordinary Rust around the library: D-Bus, network, browser, settings store and widgets.
