# zuse

An uptime bot. It tests HTTP endpoints and TCP sockets again and again, and tells
channels of Telegram and Amazon SNS when a test fails and when it has recovered.

- `src/` is the logic of the bot, verified with Verus: setting up the notifiers,
  checking a configuration, counting failures and recoveries, and building the
  messages. `src/bindings.rs` holds every contract on code from outside, and
  `src/laws.rs` what holds of the bot as a whole.
- `tests/` runs the library on examples.
- `app/` is the program: it reads the configuration, talks to the messengers and
  runs the tests.

```yaml
notifiers:
  - type: telegram
    auth:
      token: xxxx
    channels:
      - name: tg_chan
        id: -1000000000000

tests:
  - type: http_ok
    name: site-com-alive-cdn
    target: https://site.com/endpoint
    retries: 3
    recovery: 3
    interval: 1
    notify:
      - tg_chan
```
